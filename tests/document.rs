use chrono::Datelike;
use radif::{
    Adif, DataValue, Date, Header, HeaderField, HeaderFieldName, QSOField, QSOFieldName, QSO,
};

#[test]
fn test_adif_serialization_empty() {
    let input = Adif { header: Header::try_from(vec![]).unwrap(), qso: vec![] };
    let expected = "";
    let actual = input.serialize();
    assert_eq!(actual, expected);
}

#[test]
fn test_adif_serialization_only_header_single() {
    let input = Adif {
        header: Header::try_from(vec![HeaderField::new(
            HeaderFieldName::PROGRAMID,
            DataValue::String("testtest".to_string()),
        )])
        .unwrap(),
        qso: vec![],
    };
    let expected = "<PROGRAMID:8>testtest";
    let actual = input.serialize();
    assert_eq!(actual, expected);
}

#[test]
fn test_adif_serialization_only_header_multi() {
    let input = Adif {
        header: Header::try_from(vec![
            HeaderField::new(HeaderFieldName::PROGRAMID, DataValue::String("testtest".to_string())),
            HeaderField::new(HeaderFieldName::USERDEF(1), DataValue::String("testing".to_string())),
        ])
        .unwrap(),
        qso: vec![],
    };
    let expected = "<PROGRAMID:8>testtest<USERDEF1:7>testing";
    let actual = input.serialize();
    assert_eq!(actual, expected);
}

#[test]
fn test_adif_serialization_only_one_qso_single() {
    let input = Adif {
        header: Header::try_from(vec![]).unwrap(),
        qso: vec![QSO::try_from(vec![QSOField::new(
            QSOFieldName::CALL,
            DataValue::String("IS0GVH".to_string()),
        )])
        .unwrap()],
    };
    let expected = "<CALL:6>IS0GVH";
    let actual = input.serialize();
    assert_eq!(actual, expected);
}

#[test]
fn test_adif_serialization_only_one_qso_multi() {
    let input = Adif {
        header: Header::try_from(vec![]).unwrap(),
        qso: vec![QSO::try_from(vec![
            QSOField::new(QSOFieldName::CALL, DataValue::String("IS0GVH".to_string())),
            QSOField::new(QSOFieldName::RST_SENT, DataValue::String("599".to_string())),
        ])
        .unwrap()],
    };
    let expected = "<CALL:6>IS0GVH<RST_SENT:3>599";
    let actual = input.serialize();
    assert_eq!(actual, expected);
}

#[test]
fn test_adif_serialization_only_two_qso_single() {
    let input = Adif {
        header: Header::try_from(vec![]).unwrap(),
        qso: vec![
            QSO::try_from(vec![QSOField::new(
                QSOFieldName::CALL,
                DataValue::String("IS0GVH".to_string()),
            )])
            .unwrap(),
            QSO::try_from(vec![QSOField::new(
                QSOFieldName::CALL,
                DataValue::String("IS0xx".to_string()),
            )])
            .unwrap(),
        ],
    };
    let expected = "<CALL:6>IS0GVH\n<CALL:5>IS0xx";
    let actual = input.serialize();
    assert_eq!(actual, expected);
}

#[test]
fn test_adif_serialization_only_two_qso_multi() {
    let input = Adif {
        header: Header::try_from(vec![]).unwrap(),
        qso: vec![
            QSO::try_from(vec![
                QSOField::new(QSOFieldName::CALL, DataValue::String("IS0GVH".to_string())),
                QSOField::new(QSOFieldName::RST_SENT, DataValue::String("599".to_string())),
            ])
            .unwrap(),
            QSO::try_from(vec![
                QSOField::new(QSOFieldName::CALL, DataValue::String("IS0xx".to_string())),
                QSOField::new(QSOFieldName::RST_SENT, DataValue::String("59".to_string())),
            ])
            .unwrap(),
        ],
    };
    let expected = "<CALL:6>IS0GVH<RST_SENT:3>599\n<CALL:5>IS0xx<RST_SENT:2>59";
    let actual = input.serialize();
    assert_eq!(actual, expected);
}

#[test]
fn test_header_field_serialize() {
    let field = HeaderField::new(HeaderFieldName::PROGRAMID, DataValue::String("Test".to_string()));
    assert_eq!(field.serialize(), "<PROGRAMID:4>Test");
}

#[test]
fn test_header_field_deserialize_valid() {
    let input = "<PROGRAMID:4>Test";
    let expected =
        HeaderField::new(HeaderFieldName::PROGRAMID, DataValue::String("Test".to_string()));
    let actual = HeaderField::deserialize(input).unwrap();
    assert_eq!(expected, actual);
}

#[test]
fn test_header_field_deserialize_invalid() {
    assert_eq!(HeaderField::deserialize("").is_err(), true);
    assert_eq!(HeaderField::deserialize("<>").is_err(), true);
    assert_eq!(HeaderField::deserialize("<PROGRAMID>Test").is_err(), true);
    assert_eq!(HeaderField::deserialize("<PROGRAMID:>Test").is_err(), true);
    assert_eq!(HeaderField::deserialize("<INVALID:6>Test").is_err(), true);
}

#[test]
fn test_header_add_end_if_missing_add() {
    let now = chrono::Utc::now().format("%Y-%m-%dT%H:%M:%S%.3fZ").to_string();
    let input = Header::try_from(vec![
        HeaderField::new(HeaderFieldName::PROGRAMID, DataValue::String("Test".to_string())),
        HeaderField::new(HeaderFieldName::CREATED_TIMESTAMP, DataValue::String(now.clone())),
    ])
    .unwrap();
    let expected = Header::try_from(vec![
        HeaderField::new(HeaderFieldName::PROGRAMID, DataValue::String("Test".to_string())),
        HeaderField::new(HeaderFieldName::CREATED_TIMESTAMP, DataValue::String(now)),
        HeaderField::end(),
    ])
    .unwrap();
    let actual = input.add_end_if_missing();
    assert_eq!(expected, actual);
}

#[test]
fn test_header_add_end_if_missing_already_present() {
    let now = chrono::Utc::now().format("%Y-%m-%dT%H:%M:%S%.3fZ").to_string();
    let input = Header::try_from(vec![
        HeaderField::new(HeaderFieldName::PROGRAMID, DataValue::String("IS0GVH".to_string())),
        HeaderField::new(HeaderFieldName::CREATED_TIMESTAMP, DataValue::String(now)),
        HeaderField::end(),
    ])
    .unwrap();
    let expected = input.clone();
    let actual = input.add_end_if_missing();
    assert_eq!(expected, actual);
}

#[test]
fn test_header_serialize() {
    let now = chrono::Utc::now().format("%Y-%m-%dT%H:%M:%S%.3fZ").to_string();
    let input = Header::try_from(vec![
        HeaderField::new(HeaderFieldName::PROGRAMID, DataValue::String("Test".to_string())),
        HeaderField::new(HeaderFieldName::CREATED_TIMESTAMP, DataValue::String(now.clone())),
        HeaderField::end(),
    ])
    .unwrap();
    let expected = format!("<PROGRAMID:4>Test<CREATED_TIMESTAMP:{}>{}<EOH>", now.len(), now);
    let actual = input.serialize();
    assert_eq!(expected, actual);
}

#[test]
fn test_qso_field_serialize() {
    let field = QSOField::new(QSOFieldName::CALL, DataValue::String("IS0GVH".to_string()));
    assert_eq!(field.serialize(), "<CALL:6>IS0GVH");
}

#[test]
fn test_qso_field_deserialize_valid() {
    let input = "<CALL:6>IS0GVH";
    let expected = QSOField::new(QSOFieldName::CALL, DataValue::String("IS0GVH".to_string()));
    let actual = QSOField::deserialize(input).unwrap();
    assert_eq!(expected, actual);
}

#[test]
fn test_qso_field_deserialize_invalid() {
    assert_eq!(QSOField::deserialize("").is_err(), true);
    assert_eq!(QSOField::deserialize("<>").is_err(), true);
    assert_eq!(QSOField::deserialize("<CALL>IS0GVH").is_err(), true);
    assert_eq!(QSOField::deserialize("<CALL:>IS0GVH").is_err(), true);
    assert_eq!(QSOField::deserialize("<INVALID:6>IS0GVH").is_err(), true);
}

fn today() -> Date {
    let d = chrono::Utc::now().date_naive();
    Date::new(d.year() as u16, d.month() as u8, d.day() as u8).unwrap()
}

#[test]
fn test_qso_add_end_if_missing_add() {
    let input = QSO::try_from(vec![
        QSOField::new(QSOFieldName::CALL, DataValue::String("IS0GVH".to_string())),
        QSOField::new(QSOFieldName::QSO_DATE, DataValue::Date(today())),
    ])
    .unwrap();
    let expected = QSO::try_from(vec![
        QSOField::new(QSOFieldName::CALL, DataValue::String("IS0GVH".to_string())),
        QSOField::new(QSOFieldName::QSO_DATE, DataValue::Date(today())),
        QSOField::end(),
    ])
    .unwrap();
    let actual = input.add_end_if_missing();
    assert_eq!(expected, actual);
}

#[test]
fn test_qso_add_end_if_missing_already_present() {
    let input = QSO::try_from(vec![
        QSOField::new(QSOFieldName::CALL, DataValue::String("IS0GVH".to_string())),
        QSOField::new(QSOFieldName::QSO_DATE, DataValue::Date(today())),
        QSOField::end(),
    ])
    .unwrap();
    let expected = input.clone();
    let actual = input.add_end_if_missing();
    assert_eq!(expected, actual);
}

#[test]
fn test_qso_serialize() {
    let now = chrono::Utc::now();
    let input = QSO::try_from(vec![
        QSOField::new(QSOFieldName::QSO_DATE, DataValue::Date(today())),
        QSOField::new(QSOFieldName::CALL, DataValue::String("IS0GVH".to_string())),
        QSOField::end(),
    ])
    .unwrap();
    let expected = format!("<QSO_DATE:8>{}<CALL:6>IS0GVH<EOR>", now.format("%Y%m%d"));
    let actual = input.serialize();
    assert_eq!(expected, actual);
}
