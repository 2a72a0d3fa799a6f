use radif::{HeaderFieldName, QSOFieldName};

#[test]
fn test_header_field_name_serialize() {
    assert_eq!(HeaderFieldName::ADIF_VER.serialize(), "ADIF_VER");
    assert_eq!(HeaderFieldName::CREATED_TIMESTAMP.serialize(), "CREATED_TIMESTAMP");
    assert_eq!(HeaderFieldName::PROGRAMID.serialize(), "PROGRAMID");
    assert_eq!(HeaderFieldName::PROGRAMVERSION.serialize(), "PROGRAMVERSION");
    assert_eq!(HeaderFieldName::USERDEF(42).serialize(), "USERDEF42");
    assert_eq!(HeaderFieldName::EOH.serialize(), "EOH");
}

#[test]
fn test_header_field_name_deserialize_uppercase() {
    assert_eq!(HeaderFieldName::deserialize("ADIF_VER").unwrap(), HeaderFieldName::ADIF_VER);
    assert_eq!(
        HeaderFieldName::deserialize("CREATED_TIMESTAMP").unwrap(),
        HeaderFieldName::CREATED_TIMESTAMP
    );
    assert_eq!(HeaderFieldName::deserialize("PROGRAMID").unwrap(), HeaderFieldName::PROGRAMID);
    assert_eq!(
        HeaderFieldName::deserialize("PROGRAMVERSION").unwrap(),
        HeaderFieldName::PROGRAMVERSION
    );
    assert_eq!(HeaderFieldName::deserialize("USERDEF42").unwrap(), HeaderFieldName::USERDEF(42));
    assert_eq!(HeaderFieldName::deserialize("EOH").unwrap(), HeaderFieldName::EOH);
    assert!(HeaderFieldName::deserialize("INVALID").is_err());
}

#[test]
fn test_header_field_name_deserialize_lowercase() {
    assert_eq!(HeaderFieldName::deserialize("adif_ver").unwrap(), HeaderFieldName::ADIF_VER);
    assert_eq!(
        HeaderFieldName::deserialize("created_timestamp").unwrap(),
        HeaderFieldName::CREATED_TIMESTAMP
    );
    assert_eq!(HeaderFieldName::deserialize("programid").unwrap(), HeaderFieldName::PROGRAMID);
    assert_eq!(
        HeaderFieldName::deserialize("programversion").unwrap(),
        HeaderFieldName::PROGRAMVERSION
    );
    assert_eq!(HeaderFieldName::deserialize("userdef42").unwrap(), HeaderFieldName::USERDEF(42));
    assert_eq!(HeaderFieldName::deserialize("eoh").unwrap(), HeaderFieldName::EOH);
    assert!(HeaderFieldName::deserialize("invalid").is_err());
}

#[test]
fn qso_field_names_match_in_any_case() {
    assert_eq!(QSOFieldName::deserialize("call").unwrap(), QSOFieldName::CALL);
    assert_eq!(QSOFieldName::deserialize("Rst_Sent").unwrap(), QSOFieldName::RST_SENT);
    assert_eq!(QSOFieldName::RST_SENT.serialize(), "RST_SENT");
    assert_eq!(QSOFieldName::EOR.serialize(), "EOR");
    assert!(QSOFieldName::deserialize("EOH").is_err());
    assert!(HeaderFieldName::deserialize("EOR").is_err());
}

#[test]
fn userdef_number_out_of_range_is_unknown() {
    assert!(HeaderFieldName::deserialize("USERDEF4294967296").is_err());
    assert_eq!(
        HeaderFieldName::deserialize("USERDEF4294967295").unwrap(),
        HeaderFieldName::USERDEF(4294967295)
    );
    assert!(HeaderFieldName::deserialize("USERDEF").is_err());
    assert!(HeaderFieldName::deserialize("USERDEFx").is_err());
}
