use radif::{
    parse, parse_str, Adif, AdifState, AntPath, Award, Band, Continent, DataType, DataValue,
    Date, DxccEntityCode, Enumeration, EnumerationType, ErrorKind, Field, HeaderField,
    HeaderFieldName, IotaRefNo, Location, LocationDirection, QSOField, QSOFieldName, QsoComplete,
    Region, Sponsor, SponsoredAward, State, Time, QSO,
};

#[test]
fn header_and_one_record() {
    let doc = parse_str("<PROGRAMID:8>testtest<EOH><CALL:6>IS0GVH<EOR>").unwrap();
    assert_eq!(doc.header.len(), 2);
    assert_eq!(
        *doc.header.get(0),
        HeaderField::new(HeaderFieldName::PROGRAMID, DataValue::String("testtest".to_string()))
    );
    assert_eq!(*doc.header.get(1), HeaderField::end());
    assert_eq!(doc.qso.len(), 1);
    assert_eq!(doc.qso[0].len(), 2);
    assert_eq!(
        *doc.qso[0].get(0),
        QSOField::new(QSOFieldName::CALL, DataValue::String("IS0GVH".to_string()))
    );
    assert_eq!(*doc.qso[0].get(1), QSOField::end());
}

#[test]
fn record_without_header_round_trips() {
    let text = "<CALL:6>IS0GVH<RST_SENT:3>599<EOR>";
    let doc = parse_str(text).unwrap();
    assert_eq!(doc.header.len(), 0);
    assert_eq!(doc.qso.len(), 1);
    assert_eq!(doc.qso[0].len(), 3);
    assert_eq!(
        *doc.qso[0].get(1),
        QSOField::new(QSOFieldName::RST_SENT, DataValue::String("599".to_string()))
    );
    assert_eq!(doc.serialize(), text);
}

#[test]
fn iota_reference_needs_three_digits() {
    let r = IotaRefNo::deserialize("EU-024").unwrap();
    assert_eq!(r, IotaRefNo { continent: Continent::Europe, number: 24 });
    assert!(IotaRefNo::deserialize("EU-24").is_err());
}

#[test]
fn short_value_is_length_mismatch() {
    let e = QSOField::deserialize("<CALL:6>IS0GV").unwrap_err();
    assert_eq!(e.kind, ErrorKind::LengthMismatch);
    let e = parse_str("<CALL:6>IS0GV").unwrap_err();
    assert_eq!(e.kind, ErrorKind::UnexpectedEof);
}

#[test]
fn unknown_field_name_is_reported() {
    let e = QSOField::deserialize("<FOOBAR:3>abc").unwrap_err();
    assert_eq!(e.kind, ErrorKind::UnknownFieldName);
    let e = parse_str("<FOOBAR:3>abc").unwrap_err();
    assert_eq!(e.kind, ErrorKind::UnknownFieldName);
}

#[test]
fn field_codec_error_kinds() {
    assert_eq!(QSOField::deserialize("CALL:6>IS0GVH").unwrap_err().kind, ErrorKind::MalformedField);
    assert_eq!(QSOField::deserialize("<CALL:6").unwrap_err().kind, ErrorKind::MalformedField);
    assert_eq!(QSOField::deserialize("<CALL:x>IS0GVH").unwrap_err().kind, ErrorKind::MalformedField);
    assert_eq!(QSOField::deserialize("<CALL>IS0GVH").unwrap_err().kind, ErrorKind::MalformedField);
    assert_eq!(QSOField::deserialize("<BAND:3>11M").unwrap_err().kind, ErrorKind::UnknownEnumerationToken);
    assert_eq!(QSOField::deserialize("<CQZ:2>1x").unwrap_err().kind, ErrorKind::InvalidScalar);
    assert_eq!(QSOField::deserialize("<IOTA:5>EU-24").unwrap_err().kind, ErrorKind::InvalidComposite);
    assert_eq!(QSOField::deserialize("<call:1:S:6>IS0GVH").unwrap_err().kind, ErrorKind::MalformedField);
}

#[test]
fn field_with_type_indicator_and_lower_case_name() {
    let f = QSOField::deserialize("<call:S:6>IS0GVH").unwrap();
    assert_eq!(f, QSOField::new(QSOFieldName::CALL, DataValue::String("IS0GVH".to_string())));
    assert_eq!(f.serialize(), "<CALL:6>IS0GVH");
    assert!(QSOField::deserialize("<EOR:0>").unwrap().is_end());
    assert!(QSOField::deserialize("<eor>").unwrap().is_end());
}

fn round_trip_qso(f: QSOField) {
    let text = f.serialize();
    assert_eq!(QSOField::deserialize(&text).unwrap(), f);
}

#[test]
fn field_round_trip_on_each_value_type() {
    round_trip_qso(QSOField::new(QSOFieldName::CALL, DataValue::String("A<b>:c".to_string())));
    round_trip_qso(QSOField::new(QSOFieldName::BAND, DataValue::Enumeration(Enumeration::Band(Band::Band1_25cm))));
    round_trip_qso(QSOField::new(
        QSOFieldName::DXCC,
        DataValue::Enumeration(Enumeration::DxccEntityCode(DxccEntityCode::Canada)),
    ));
    round_trip_qso(QSOField::new(QSOFieldName::QSO_DATE, DataValue::Date(Date::new(2024, 2, 29).unwrap())));
    round_trip_qso(QSOField::new(QSOFieldName::TIME_ON, DataValue::Time(Time::new(23, 5, 9).unwrap())));
    round_trip_qso(QSOField::new(QSOFieldName::K_INDEX, DataValue::Integer(i64::MIN)));
    round_trip_qso(QSOField::new(QSOFieldName::SRX, DataValue::Integer(-42)));
    round_trip_qso(QSOField::new(QSOFieldName::CQZ, DataValue::PositiveInteger(u64::MAX)));
    round_trip_qso(QSOField::new(QSOFieldName::FREQ, DataValue::Number("-14.074".to_string())));
    round_trip_qso(QSOField::new(QSOFieldName::SWL, DataValue::Boolean(true)));
    round_trip_qso(QSOField::new(QSOFieldName::IOTA, DataValue::IotaRefNo(IotaRefNo { continent: Continent::Asia, number: 5 })));
    round_trip_qso(QSOField::new(
        QSOFieldName::LAT,
        DataValue::Location(Location { direction: LocationDirection::South, degrees: 33, milli_minutes: 59999 }),
    ));
    round_trip_qso(QSOField::new(
        QSOFieldName::AWARD_SUBMITTED,
        DataValue::SponsoredAwardList(vec![
            SponsoredAward { sponsor: Sponsor::ARRL, program: "DXCC".to_string(), award: "CW".to_string() },
            SponsoredAward { sponsor: Sponsor::CQ, program: "WAZ".to_string(), award: "Mixed".to_string() },
        ]),
    ));
    round_trip_qso(QSOField::new(
        QSOFieldName::VUCC_GRIDS,
        DataValue::GridSquareList(vec!["JN39".to_string(), "JN49".to_string()]),
    ));
    round_trip_qso(QSOField::end());
}

#[test]
fn value_codec_exact_texts() {
    assert_eq!(DataValue::Integer(-42).serialize(), "-42");
    assert_eq!(DataValue::Digit(7).serialize(), "7");
    assert_eq!(DataValue::Boolean(false).serialize(), "N");
    assert_eq!(DataValue::Date(Date::new(1999, 1, 2).unwrap()).serialize(), "19990102");
    assert_eq!(DataValue::Time(Time::new(1, 2, 3).unwrap()).serialize(), "010203");
    assert_eq!(
        DataValue::AwardList(vec![Award::CQWAZ_MIXED, Award::DXCC]).serialize(),
        "CQWAZ_MIXED,DXCC"
    );
    assert_eq!(DataValue::str_to_enum(DataType::Boolean, "Y").unwrap(), DataValue::Boolean(true));
    assert_eq!(DataValue::str_to_enum(DataType::Boolean, "N").unwrap(), DataValue::Boolean(false));
    assert_eq!(DataValue::str_to_enum(DataType::Boolean, "y").unwrap_err().kind, ErrorKind::InvalidScalar);
    assert_eq!(DataValue::str_to_enum(DataType::Boolean, "X").unwrap_err().kind, ErrorKind::InvalidScalar);
    assert_eq!(DataValue::str_to_enum(DataType::Character, "xyz").unwrap(), DataValue::Character('x'));
    assert_eq!(DataValue::str_to_enum(DataType::Digit, "12").unwrap_err().kind, ErrorKind::InvalidScalar);
    assert_eq!(DataValue::str_to_enum(DataType::Date, "20230229").unwrap_err().kind, ErrorKind::InvalidScalar);
    assert_eq!(DataValue::str_to_enum(DataType::Time, "240000").unwrap_err().kind, ErrorKind::InvalidScalar);
    assert_eq!(DataValue::str_to_enum(DataType::Number, "1.2.3").unwrap_err().kind, ErrorKind::InvalidScalar);
    assert_eq!(DataValue::str_to_enum(DataType::Number, "-").unwrap_err().kind, ErrorKind::InvalidScalar);
    assert_eq!(
        DataValue::str_to_enum(DataType::Integer, "9223372036854775808").unwrap_err().kind,
        ErrorKind::InvalidScalar
    );
    assert_eq!(
        DataValue::str_to_enum(DataType::AwardList, "DXCC,NOPE").unwrap_err().kind,
        ErrorKind::UnknownEnumerationToken
    );
    assert_eq!(
        DataValue::str_to_enum(DataType::PotaRefList, "K-0001,K-0002").unwrap(),
        DataValue::PotaRefList(vec!["K-0001".to_string(), "K-0002".to_string()])
    );
    assert_eq!(DataValue::Number("1.5".to_string()).to_char(), Some('N'));
    assert_eq!(DataValue::Digit(1).to_char(), None);
}

#[test]
fn enumeration_tokens_round_trip() {
    for t in ["G", "O", "S", "L"] {
        assert_eq!(AntPath::deserialize(t).unwrap().serialize(), t);
    }
    assert_eq!(Band::Band2190m.serialize(), "2190M");
    assert_eq!(Band::deserialize("1.25CM").unwrap(), Band::Band1_25cm);
    assert!(Band::deserialize("20m").is_err());
    assert_eq!(QsoComplete::deserialize("?").unwrap(), QsoComplete::Uncertain);
    assert_eq!(Region::deserialize("NONE").unwrap(), Region::NoRegion);
    assert_eq!(DxccEntityCode::deserialize("0").unwrap(), DxccEntityCode::NoEntity);
    assert_eq!(DxccEntityCode::Canada.serialize(), "1");
    assert!(DxccEntityCode::deserialize("01").is_err());
    assert!(DxccEntityCode::deserialize("9999").is_err());
    assert_eq!(
        Enumeration::str_to_enum(EnumerationType::Continent, "AN").unwrap(),
        Enumeration::Continent(Continent::Antarctica)
    );
    assert_eq!(
        Enumeration::str_to_enum(EnumerationType::Continent, "an").unwrap_err().kind,
        ErrorKind::UnknownEnumerationToken
    );
}

fn sample_document() -> Adif {
    let header = radif::Header::try_from(vec![
        HeaderField::new(HeaderFieldName::ADIF_VER, DataValue::String("3.1.4".to_string())),
        HeaderField::new(HeaderFieldName::USERDEF(3), DataValue::String("a\nb".to_string())),
    ])
    .unwrap()
    .add_end_if_missing();
    let q1 = QSO::try_from(vec![
        QSOField::new(QSOFieldName::CALL, DataValue::String("IS0GVH".to_string())),
        QSOField::new(QSOFieldName::COMMENT, DataValue::String("<EOR> inside".to_string())),
    ])
    .unwrap()
    .add_end_if_missing();
    let q2 = QSO::try_from(vec![QSOField::new(
        QSOFieldName::BAND,
        DataValue::Enumeration(Enumeration::Band(Band::Band20m)),
    )])
    .unwrap()
    .add_end_if_missing();
    Adif { header, qso: vec![q1, q2] }
}

#[test]
fn document_round_trip() {
    let doc = sample_document();
    let text = doc.serialize();
    assert_eq!(parse_str(&text).unwrap(), doc);
    assert_eq!(Adif::deserialize(&text).unwrap(), doc);
}

#[test]
fn chunk_invariance() {
    let text = sample_document().serialize();
    let bytes = text.as_bytes();
    let whole = parse(bytes).unwrap();
    for split in 0..=bytes.len() {
        let mut state = State::new();
        state.feed(&bytes[..split]).unwrap();
        state.feed(&bytes[split..]).unwrap();
        assert_eq!(state.finish().unwrap(), whole);
    }
    let mut state = State::new();
    for b in bytes {
        state.feed(&[*b]).unwrap();
    }
    assert_eq!(state.adif_state, AdifState::InQso);
    assert_eq!(state.finish().unwrap(), whole);
}

#[test]
fn bytes_are_read_one_character_each() {
    let doc = parse(b"<CALL:2>\xe9x<EOR>").unwrap();
    assert_eq!(
        *doc.qso[0].get(0),
        QSOField::new(QSOFieldName::CALL, DataValue::String("\u{e9}x".to_string()))
    );
}

#[test]
fn zero_length_value_and_terminator_forms() {
    let doc = parse_str("<PROGRAMID:0><eoh:0>\n<CALL:0><EOR:0>").unwrap();
    assert_eq!(doc.header.len(), 2);
    assert_eq!(*doc.header.get(1), Field::end());
    assert_eq!(doc.qso.len(), 1);
    assert_eq!(
        *doc.qso[0].get(0),
        QSOField::new(QSOFieldName::CALL, DataValue::String(String::new()))
    );
}

#[test]
fn error_message_names_kind_and_text() {
    let e = QSOField::deserialize("<FOOBAR:3>abc").unwrap_err();
    assert_eq!(e.raw, "FOOBAR");
    assert_eq!(e.message(), "UnknownFieldName: FOOBAR");
}

#[test]
fn document_description_and_list_helpers() {
    let doc = sample_document();
    assert_eq!(doc.describe(), "Headers: 3 - QSO: 2");
    assert_eq!(radif::join_vec(&vec!["a".to_string(), "b".to_string()], ','), "a,b");
    assert_eq!(radif::split_to_vec("x,,y"), vec!["x".to_string(), String::new(), "y".to_string()]);
    assert_eq!(QSOField::default(), QSOField::end());
}

#[test]
fn value_is_the_first_declared_characters() {
    let f = QSOField::deserialize("<CALL:3>ABCD").unwrap();
    assert_eq!(f, QSOField::new(QSOFieldName::CALL, DataValue::String("ABC".to_string())));
    let f = QSOField::deserialize("<CALL:6>IS0GVHX").unwrap();
    assert_eq!(f, QSOField::new(QSOFieldName::CALL, DataValue::String("IS0GVH".to_string())));
    assert!(QSOField::deserialize("<EOR>x").unwrap().is_end());
    assert_eq!(QSOField::deserialize("<CALL:7>IS0GVH").unwrap_err().kind, ErrorKind::LengthMismatch);
}

#[test]
fn record_terminator_is_malformed_in_the_header() {
    assert_eq!(parse_str("<EOR>").unwrap_err().kind, ErrorKind::MalformedField);
    assert_eq!(parse_str("<PROGRAMID:1>x<EOR>").unwrap_err().kind, ErrorKind::MalformedField);
    assert!(parse_str("<CALL:1>x<EOR>").is_ok());
}

#[test]
fn wire_bytes_round_trip_and_agree_with_string_parsing() {
    let mut doc = sample_document();
    doc.qso[1] = QSO::try_from(vec![
        QSOField::new(QSOFieldName::NAME_INTL, DataValue::IntlString("Jos\u{e9}".to_string())),
    ])
    .unwrap()
    .add_end_if_missing();
    let bytes = doc.to_bytes().unwrap();
    assert!(bytes.windows(14).any(|w| w == b"<NAME_INTL:4>J"));
    assert!(bytes.contains(&0xE9));
    assert_eq!(parse(&bytes).unwrap(), doc);
    let text = "<CALL:1>\u{e9}<EOR>";
    assert_eq!(Adif::deserialize(text).unwrap(), parse(text.as_bytes()).unwrap());
    assert_eq!(parse_str(text).unwrap(), parse(text.as_bytes()).unwrap());
    let euro = QSOField::new(QSOFieldName::NAME_INTL, DataValue::IntlString("\u{20ac}".to_string()));
    assert!(euro.to_bytes().is_none());
    assert_eq!(
        QSOField::new(QSOFieldName::CALL, DataValue::String("AB".to_string())).to_bytes().unwrap(),
        b"<CALL:2>AB".to_vec()
    );
}

#[test]
fn chunk_invariance_many_pieces() {
    let bytes = sample_document().to_bytes().unwrap();
    let whole = parse(&bytes).unwrap();
    for size in 1..8 {
        let mut state = State::new();
        for chunk in bytes.chunks(size) {
            state.feed(chunk).unwrap();
        }
        assert_eq!(state.finish().unwrap(), whole);
    }
}
