//! Tests of the textual MAC and device-type parsers.

use remote_bridge::parse::{parse_device_type, parse_mac};

#[test]
fn mac_parses_colon_hex() {
    assert_eq!(parse_mac("e8:16:56:0a:0b:0c"), [0xe8, 0x16, 0x56, 0x0a, 0x0b, 0x0c]);
    assert_eq!(parse_mac("E8:16:56:0A:0B:0C"), [0xe8, 0x16, 0x56, 0x0a, 0x0b, 0x0c]);
    assert_eq!(parse_mac("0:1:2:3:4:5"), [0, 1, 2, 3, 4, 5]);
}

#[test]
fn mac_with_wrong_field_count_is_zero() {
    assert_eq!(parse_mac(""), [0; 6]);
    assert_eq!(parse_mac("e8:16:56:0a:0b"), [0; 6]);
    assert_eq!(parse_mac("e8:16:56:0a:0b:0c:0d"), [0; 6]);
    assert_eq!(parse_mac("no colons here"), [0; 6]);
}

#[test]
fn mac_bad_field_parses_to_zero() {
    assert_eq!(parse_mac("zz:16:56:0a:0b:0c"), [0, 0x16, 0x56, 0x0a, 0x0b, 0x0c]);
    assert_eq!(parse_mac("100:16:56:0a:0b:0c"), [0, 0x16, 0x56, 0x0a, 0x0b, 0x0c]);
    assert_eq!(parse_mac(":16:56:0a:0b:0c"), [0, 0x16, 0x56, 0x0a, 0x0b, 0x0c]);
}

#[test]
fn device_type_hex_and_decimal() {
    assert_eq!(parse_device_type("0x520b"), 0x520b);
    assert_eq!(parse_device_type("0x520B"), 0x520b);
    assert_eq!(parse_device_type("0xffff"), 0xffff);
    assert_eq!(parse_device_type("21003"), 21003);
    assert_eq!(parse_device_type("0"), 0);
}

#[test]
fn device_type_malformed_is_zero() {
    assert_eq!(parse_device_type(""), 0);
    assert_eq!(parse_device_type("0x"), 0);
    assert_eq!(parse_device_type("0xgg"), 0);
    assert_eq!(parse_device_type("0x10000"), 0);
    assert_eq!(parse_device_type("70000"), 0);
    assert_eq!(parse_device_type("12a"), 0);
    assert_eq!(parse_device_type("-5"), 0);
}
