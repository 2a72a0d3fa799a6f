use radif::{Continent, IotaRefNo, Location, LocationDirection, Sponsor, SponsoredAward};

#[test]
fn test_serialize_valid() {
    let input = "EU-024";
    let expected = IotaRefNo { continent: Continent::Europe, number: 24 };
    let actual = IotaRefNo::deserialize(input).unwrap();
    assert_eq!(expected, actual);
}

#[test]
fn test_serialize_invalid_no_dash() {
    assert_eq!(IotaRefNo::deserialize("EU024").is_err(), true);
}

#[test]
fn test_serialize_invalid_no_trailing_zeroes() {
    assert_eq!(IotaRefNo::deserialize("EU-24").is_err(), true);
}

#[test]
fn test_serialize_invalid_continent() {
    assert_eq!(IotaRefNo::deserialize("AA-024").is_err(), true);
}

#[test]
fn test_serialize_invalid_too_much_digits() {
    assert_eq!(IotaRefNo::deserialize("AA-0024").is_err(), true);
}

#[test]
fn iota_serializes_zero_padded() {
    let r = IotaRefNo { continent: Continent::Oceana, number: 7 };
    assert_eq!(r.serialize(), "OC-007");
    assert_eq!(IotaRefNo::deserialize("OC-007").unwrap(), r);
    assert_eq!(
        IotaRefNo::deserialize("EU-0x4").unwrap_err().kind,
        radif::ErrorKind::InvalidComposite
    );
    assert_eq!(
        IotaRefNo::deserialize("XX-024").unwrap_err().kind,
        radif::ErrorKind::UnknownEnumerationToken
    );
}

fn decimal_degrees(l: &Location) -> f64 {
    let minutes = l.milli_minutes as f64 / 1000.0;
    l.degrees as f64 + minutes / 60.0
}

#[test]
fn test_valid() {
    let input = "N045 12.456";
    let expected = Location { direction: LocationDirection::North, degrees: 45, milli_minutes: 12456 };
    let actual = Location::deserialize(input).unwrap();
    assert_eq!(expected, actual);
    assert_eq!(decimal_degrees(&actual), 45.207600f64);
}

#[test]
fn test_invalid_no_space() {
    let input = "N04512.456";
    assert_eq!(Location::deserialize(input).is_err(), true);
}

#[test]
fn test_invalid_no_decimals() {
    let input = "N045 12456";
    assert_eq!(Location::deserialize(input).is_err(), true);
}

#[test]
fn test_invalid_no_leading_zeroes() {
    let input = "N45 12.456";
    assert_eq!(Location::deserialize(input).is_err(), true);
}

#[test]
fn test_invalid_no_direction() {
    let input = "45 12.456";
    assert_eq!(Location::deserialize(input).is_err(), true);
}

#[test]
fn test_invalid_wrong_direction() {
    let input = "Z45 12.456";
    assert_eq!(Location::deserialize(input).is_err(), true);
}

#[test]
fn test_invalid_out_of_range_latitude() {
    let input = "N095 12.456";
    assert_eq!(Location::deserialize(input).is_err(), true);
}

#[test]
fn test_invalid_out_of_range_longitude() {
    let input = "E195 12.456";
    assert_eq!(Location::deserialize(input).is_err(), true);
}

#[test]
fn location_round_trip_and_bounds() {
    let l = Location { direction: LocationDirection::West, degrees: 179, milli_minutes: 59999 };
    assert_eq!(l.serialize(), "W179 59.999");
    assert_eq!(Location::deserialize("W179 59.999").unwrap(), l);
    assert!(Location::deserialize("W180 00.000").is_ok());
    assert!(Location::deserialize("W180 00.005").is_err());
    assert!(Location::deserialize("S090 00.000").is_ok());
    assert!(Location::deserialize("N090 30.000").is_err());
    assert!(Location::deserialize("S091 00.000").is_err());
    assert!(Location::deserialize("N045 60.000").is_err());
}

#[test]
fn test_sponsored_award_serialize() {
    let award = SponsoredAward {
        sponsor: Sponsor::ARRL,
        program: "DXCC".to_string(),
        award: "Mixed".to_string(),
    };
    assert_eq!(award.serialize(), "ARRL_DXCC_Mixed");
}

#[test]
fn test_sponsored_award_deserialize() {
    let value = "CQ_WAS_Single";
    let award = SponsoredAward::deserialize(value).unwrap();
    assert_eq!(award.sponsor, Sponsor::CQ);
    assert_eq!(award.program, "WAS");
    assert_eq!(award.award, "Single");
}

#[test]
fn test_sponsored_award_deserialize_error() {
    let value = "InvalidData";
    let result = SponsoredAward::deserialize(value);
    assert!(result.is_err());
}

#[test]
fn sponsored_award_unknown_sponsor() {
    let e = SponsoredAward::deserialize("XYZ_WAS_Single").unwrap_err();
    assert_eq!(e.kind, radif::ErrorKind::UnknownEnumerationToken);
    let e = SponsoredAward::deserialize("CQ_WAS_Single_Extra").unwrap_err();
    assert_eq!(e.kind, radif::ErrorKind::InvalidComposite);
}
