use radif::{locator_to_coordinates, ErrorKind, Point};

const UNITS: f64 = 115200.0;

/// The point in degrees, as (longitude, latitude).
fn degrees(p: Point) -> (f64, f64) {
    (p.longitude as f64 / UNITS, p.latitude as f64 / UNITS)
}

/// The library computes cell centres exactly; the expected values below
/// carry the rounding of a floating-point sum, hence the tolerance.
fn assert_close(actual: (f64, f64), expected: (f64, f64)) {
    assert!((actual.0 - expected.0).abs() < 1e-9, "{:?} != {:?}", actual, expected);
    assert!((actual.1 - expected.1).abs() < 1e-9, "{:?} != {:?}", actual, expected);
}

#[test]
fn test_valid_two() {
    let result = locator_to_coordinates("JM").unwrap();
    assert_eq!(degrees(result), (10.0, 35.0));
}

#[test]
fn test_valid_four() {
    let result = locator_to_coordinates("JM49").unwrap();
    assert_eq!(degrees(result), (9.0, 39.5));
}

#[test]
fn test_valid_six() {
    let result = locator_to_coordinates("JM49SK").unwrap();
    assert_close(degrees(result), (9.541666666666657, 39.43749999999997));
}

#[test]
fn test_valid_eigth() {
    let result = locator_to_coordinates("JM49SK46").unwrap();
    assert_close(degrees(result), (9.537499999999994, 39.443749999999994));
}

#[test]
fn test_valid_ten() {
    let result = locator_to_coordinates("JM49SK46XV").unwrap();
    assert_close(degrees(result), (9.541493055555549, 39.445399305555554));
}

#[test]
fn test_valid_twelve() {
    let result = locator_to_coordinates("JM49SK46XV94").unwrap();
    assert_close(degrees(result), (9.541649305555552, 39.44539062499999));
}

#[test]
fn test_invalid_empty() {
    let result = locator_to_coordinates("");
    assert!(result.is_err());
}

#[test]
fn test_invalid_locator_length() {
    let result = locator_to_coordinates("JO1");
    assert!(result.is_err());
}

#[test]
fn test_invalid_locator_characters() {
    let result = locator_to_coordinates("ZZ00");
    assert!(result.is_err());
}

#[test]
fn locator_exact_units_and_error_kinds() {
    assert_eq!(locator_to_coordinates("JM49").unwrap(), Point::new(9 * 115200, 39 * 115200 + 57600));
    assert_eq!(locator_to_coordinates("jm49").unwrap(), locator_to_coordinates("JM49").unwrap());
    assert_eq!(locator_to_coordinates("JO1").unwrap_err().kind, ErrorKind::InvalidLocatorLength);
    assert_eq!(
        locator_to_coordinates("JM49SKABCDEFG1").unwrap_err().kind,
        ErrorKind::InvalidLocatorLength
    );
    assert_eq!(locator_to_coordinates("ZZ00").unwrap_err().kind, ErrorKind::InvalidLocatorCharacter);
    assert_eq!(locator_to_coordinates("JMAA").unwrap_err().kind, ErrorKind::InvalidLocatorCharacter);
    assert_eq!(locator_to_coordinates("AA").unwrap(), Point::new(-170 * 115200, -85 * 115200));
}
