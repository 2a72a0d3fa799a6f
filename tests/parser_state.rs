use radif::{
    parse_adif_char, Adif, AdifState, DataValue, FieldState, Header, HeaderField,
    HeaderFieldName, QSOField, QSOFieldName, State, QSO,
};

fn header_with_end() -> Header {
    Header::try_from(vec![
        HeaderField::new(HeaderFieldName::PROGRAMID, DataValue::String("test".to_string())),
        HeaderField::new(HeaderFieldName::EOH, DataValue::Null),
    ])
    .unwrap()
}

#[test]
fn test_parse_adif_char_default() {
    let mut state = State::default();
    parse_adif_char(&mut state, ' ').unwrap();
    assert_eq!(state.field_state, FieldState::LookingForBeginning);

    let mut state = State::default();
    parse_adif_char(&mut state, '>').unwrap();
    assert_eq!(state.field_state, FieldState::LookingForBeginning);

    let mut state = State::default();
    parse_adif_char(&mut state, ':').unwrap();
    assert_eq!(state.field_state, FieldState::LookingForBeginning);
}

#[test]
fn test_parse_adif_char_header_first_char() {
    let mut state = State::default();
    parse_adif_char(&mut state, '<').unwrap();
    assert_eq!(state.field_state, FieldState::InTag);
    assert_eq!(state.buffer, "<");
}

#[test]
fn test_parse_adif_char_header_second_char() {
    let mut state =
        State { field_state: FieldState::InTag, buffer: "<".to_string(), ..State::default() };
    parse_adif_char(&mut state, 'A').unwrap();
    assert_eq!(state.field_state, FieldState::InTag);
    assert_eq!(state.buffer, "<A");
}

#[test]
fn test_parse_adif_char_header_separator() {
    let mut state = State {
        field_state: FieldState::InTag,
        buffer: "<PROGRAMID".to_string(),
        ..State::default()
    };
    parse_adif_char(&mut state, ':').unwrap();
    assert_eq!(state.field_state, FieldState::InTag);
    assert_eq!(state.buffer, "<PROGRAMID:");
}

#[test]
fn test_parse_adif_char_header_value_begin() {
    let mut state = State {
        field_state: FieldState::InTag,
        buffer: "<PROGRAMID:4".to_string(),
        ..State::default()
    };
    parse_adif_char(&mut state, '>').unwrap();
    assert_eq!(state.field_state, FieldState::InValue);
    assert_eq!(state.counter, 4);
    assert_eq!(state.buffer, "<PROGRAMID:4>");
}

#[test]
fn test_parse_adif_char_header_value_first_char() {
    let mut state = State {
        field_state: FieldState::InValue,
        counter: 4,
        buffer: "<PROGRAMID:4>".to_string(),
        ..State::default()
    };
    parse_adif_char(&mut state, 't').unwrap();
    assert_eq!(state.field_state, FieldState::InValue);
    assert_eq!(state.counter, 3);
    assert_eq!(state.buffer, "<PROGRAMID:4>t");
}

#[test]
fn test_parse_adif_char_header_value_start_tag_char() {
    let mut state = State {
        field_state: FieldState::InValue,
        counter: 4,
        buffer: "<PROGRAMID:4>".to_string(),
        ..State::default()
    };
    parse_adif_char(&mut state, '<').unwrap();
    assert_eq!(state.field_state, FieldState::InValue);
    assert_eq!(state.counter, 3);
    assert_eq!(state.buffer, "<PROGRAMID:4><");
}

#[test]
fn test_parse_adif_char_header_value_last_char() {
    let mut state = State {
        field_state: FieldState::InValue,
        counter: 1,
        buffer: "<PROGRAMID:4>tes".to_string(),
        ..State::default()
    };
    parse_adif_char(&mut state, 't').unwrap();
    assert_eq!(state.field_state, FieldState::LookingForBeginning);
    assert_eq!(state.counter, 0);
    assert_eq!(state.buffer, "");
    assert_eq!(state.adif.header.len(), 1);
}

#[test]
fn test_parse_adif_char_header_eoh_last_char() {
    let mut state = State {
        field_state: FieldState::InTag,
        counter: 0,
        buffer: "<EOH".to_string(),
        adif: Adif {
            header: Header::try_from(vec![HeaderField::new(
                HeaderFieldName::PROGRAMID,
                DataValue::String("test".to_string()),
            )])
            .unwrap(),
            ..Adif::default()
        },
        ..State::default()
    };
    parse_adif_char(&mut state, '>').unwrap();
    assert_eq!(state.field_state, FieldState::LookingForBeginning);
    assert_eq!(state.adif_state, AdifState::InQso);
    assert_eq!(state.buffer, "");
    assert_eq!(state.adif.header.len(), 2);
}

#[test]
fn test_parse_adif_char_qso_first_char() {
    let mut state = State {
        field_state: FieldState::LookingForBeginning,
        adif_state: AdifState::InQso,
        counter: 0,
        buffer: "".to_string(),
        adif: Adif { header: header_with_end(), ..Adif::default() },
        ..State::default()
    };
    parse_adif_char(&mut state, '<').unwrap();
    assert_eq!(state.field_state, FieldState::InTag);
    assert_eq!(state.adif_state, AdifState::InQso);
    assert_eq!(state.buffer, "<");
}

#[test]
fn test_parse_adif_char_qso_second_char() {
    let mut state = State {
        field_state: FieldState::InTag,
        adif_state: AdifState::InQso,
        counter: 0,
        buffer: "<CALL".to_string(),
        adif: Adif { header: header_with_end(), ..Adif::default() },
        ..State::default()
    };
    parse_adif_char(&mut state, ':').unwrap();
    assert_eq!(state.field_state, FieldState::InTag);
    assert_eq!(state.adif_state, AdifState::InQso);
    assert_eq!(state.buffer, "<CALL:");
}

#[test]
fn test_parse_adif_char_qso_last_tag_char() {
    let mut state = State {
        field_state: FieldState::InTag,
        adif_state: AdifState::InQso,
        counter: 0,
        buffer: "<CALL:6".to_string(),
        adif: Adif { header: header_with_end(), ..Adif::default() },
        ..State::default()
    };
    parse_adif_char(&mut state, '>').unwrap();
    assert_eq!(state.field_state, FieldState::InValue);
    assert_eq!(state.adif_state, AdifState::InQso);
    assert_eq!(state.counter, 6);
    assert_eq!(state.buffer, "<CALL:6>");
}

#[test]
fn test_parse_adif_char_qso_first_value_char() {
    let mut state = State {
        field_state: FieldState::InValue,
        adif_state: AdifState::InQso,
        counter: 6,
        buffer: "<CALL:6>".to_string(),
        adif: Adif { header: header_with_end(), ..Adif::default() },
        ..State::default()
    };
    parse_adif_char(&mut state, 'I').unwrap();
    assert_eq!(state.field_state, FieldState::InValue);
    assert_eq!(state.adif_state, AdifState::InQso);
    assert_eq!(state.counter, 5);
    assert_eq!(state.buffer, "<CALL:6>I");
}

#[test]
fn test_parse_adif_char_qso_last_value_char() {
    let mut state = State {
        field_state: FieldState::InValue,
        adif_state: AdifState::InQso,
        counter: 1,
        buffer: "<CALL:6>IS0GV".to_string(),
        adif: Adif { header: header_with_end(), ..Adif::default() },
        ..State::default()
    };
    parse_adif_char(&mut state, 'H').unwrap();
    assert_eq!(state.field_state, FieldState::LookingForBeginning);
    assert_eq!(state.adif_state, AdifState::InQso);
    assert_eq!(state.counter, 0);
    assert_eq!(state.buffer, "");
    assert_eq!(state.qso.len(), 1);
}

#[test]
fn test_parse_adif_char_qso_last_eor_char() {
    let mut state = State {
        field_state: FieldState::InTag,
        adif_state: AdifState::InQso,
        counter: 0,
        buffer: "<EOR".to_string(),
        qso: QSO::try_from(vec![QSOField::new(
            QSOFieldName::CALL,
            DataValue::String("IS0GVH".to_string()),
        )])
        .unwrap(),
        adif: Adif { header: header_with_end(), ..Adif::default() },
        ..State::default()
    };
    parse_adif_char(&mut state, '>').unwrap();
    assert_eq!(state.field_state, FieldState::LookingForBeginning);
    assert_eq!(state.adif_state, AdifState::InQso);
    assert_eq!(state.counter, 0);
    assert_eq!(state.buffer, "");
    assert_eq!(state.adif.qso.len(), 1);
    assert_eq!(state.qso.len(), 0);
}
