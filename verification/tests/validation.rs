//! Address and coordinate validation.

use ipgeolocation::ip::is_private_ip;
use ipgeolocation::ip::parse_ip;
use ipgeolocation::ip::IpParsed;
use ipgeolocation::validate::validate_bulk_size;
use ipgeolocation::validate::validate_ip;
use ipgeolocation::validate::validate_latitude;
use ipgeolocation::validate::validate_longitude;
use ipgeolocation::validate::BULK_LOOKUP_MAX_IPS;

#[test]
fn test_validate_ip_valid() {
    assert!(validate_ip("8.8.8.8").is_ok());
    assert!(validate_ip("2001:4860:4860::8888").is_ok());
    assert!(validate_ip("192.168.1.1").is_ok());
}

#[test]
fn test_validate_ip_invalid() {
    assert!(validate_ip("not-an-ip").is_err());
    assert!(validate_ip("256.256.256.256").is_err());
    assert!(validate_ip("").is_err());
}

#[test]
fn test_validate_ip_error_fields() {
    let err = validate_ip("not-an-ip").unwrap_err();
    assert_eq!(err.code, "INVALID_IP");
    assert_eq!(err.error, "Invalid IP address: not-an-ip");
}

#[test]
fn test_validate_latitude_valid() {
    assert!(validate_latitude(0).is_ok());
    assert!(validate_latitude(900_000_000).is_ok());
    assert!(validate_latitude(-900_000_000).is_ok());
    assert!(validate_latitude(455_000_000).is_ok());
}

#[test]
fn test_validate_latitude_invalid() {
    assert!(validate_latitude(910_000_000).is_err());
    assert!(validate_latitude(-910_000_000).is_err());
    assert!(validate_latitude(1_800_000_000).is_err());
}

#[test]
fn test_validate_latitude_one_unit_beyond() {
    // the boundary itself passes; one E7 unit beyond fails
    assert!(validate_latitude(900_000_000).is_ok());
    assert!(validate_latitude(900_000_001).is_err());
    assert!(validate_latitude(-900_000_001).is_err());
}

#[test]
fn test_validate_latitude_error_message() {
    let err = validate_latitude(910_000_000).unwrap_err();
    assert_eq!(err.code, "INVALID_LATITUDE");
    assert_eq!(err.error, "Latitude must be between -90 and 90, got: 91");
}

#[test]
fn test_validate_longitude_valid() {
    assert!(validate_longitude(0).is_ok());
    assert!(validate_longitude(1_800_000_000).is_ok());
    assert!(validate_longitude(-1_800_000_000).is_ok());
    assert!(validate_longitude(455_000_000).is_ok());
}

#[test]
fn test_validate_longitude_invalid() {
    assert!(validate_longitude(1_810_000_000).is_err());
    assert!(validate_longitude(-1_810_000_000).is_err());
    assert!(validate_longitude(3_600_000_000).is_err());
}

#[test]
fn test_validate_longitude_one_unit_beyond() {
    assert!(validate_longitude(1_800_000_000).is_ok());
    assert!(validate_longitude(1_800_000_001).is_err());
    assert!(validate_longitude(-1_800_000_001).is_err());
}

#[test]
fn test_validate_longitude_error_message() {
    let err = validate_longitude(-1_810_000_000).unwrap_err();
    assert_eq!(err.code, "INVALID_LONGITUDE");
    assert_eq!(err.error, "Longitude must be between -180 and 180, got: -181");
}

#[test]
fn test_validate_fractional_coordinate_echoed() {
    let err = validate_latitude(993_295_040).unwrap_err();
    assert_eq!(err.error, "Latitude must be between -90 and 90, got: 99.329504");
}

#[test]
fn test_validate_bulk_size_cap() {
    assert!(validate_bulk_size(100, BULK_LOOKUP_MAX_IPS));
    assert!(validate_bulk_size(0, BULK_LOOKUP_MAX_IPS));
    assert!(!validate_bulk_size(101, BULK_LOOKUP_MAX_IPS));
}

#[test]
fn test_parse_ipv4_octets() {
    match parse_ip("8.8.4.4") {
        Some(IpParsed::V4 { a, b, c, d }) => {
            assert_eq!((a, b, c, d), (8, 8, 4, 4));
        }
        _ => panic!("expected an IPv4 parse"),
    }
}

#[test]
fn test_parse_ipv4_leading_zeros_rejected() {
    assert!(parse_ip("01.1.1.1").is_none());
    assert!(parse_ip("1.1.1.00").is_none());
    assert!(parse_ip("0.0.0.0").is_some());
}

#[test]
fn test_parse_ipv6_forms() {
    assert!(parse_ip("::").is_some());
    assert!(parse_ip("::1").is_some());
    assert!(parse_ip("1::").is_some());
    assert!(parse_ip("2001:db8::8a2e:370:7334").is_some());
    assert!(parse_ip("1:2:3:4:5:6:7:8").is_some());
    assert!(parse_ip("::ffff:192.168.0.1").is_some());
    assert!(parse_ip("1:2:3:4:5:6:1.2.3.4").is_some());
}

#[test]
fn test_parse_ipv6_invalid_forms() {
    assert!(parse_ip(":").is_none());
    assert!(parse_ip(":::").is_none());
    assert!(parse_ip("1:2:3:4:5:6:7").is_none());
    assert!(parse_ip("1:2:3:4:5:6:7:8:9").is_none());
    assert!(parse_ip("1:2:3:4:5:6:7::8").is_none());
    assert!(parse_ip("12345::").is_none());
    assert!(parse_ip("g::1").is_none());
    assert!(parse_ip("1.2.3.4::").is_none());
}

#[test]
fn test_parse_ipv6_segments() {
    match parse_ip("::1") {
        Some(IpParsed::V6 { segs }) => {
            assert_eq!(segs, vec![0, 0, 0, 0, 0, 0, 0, 1]);
        }
        _ => panic!("expected an IPv6 parse"),
    }
    match parse_ip("2001:db8::1:2") {
        Some(IpParsed::V6 { segs }) => {
            assert_eq!(segs, vec![0x2001, 0xdb8, 0, 0, 0, 0, 1, 2]);
        }
        _ => panic!("expected an IPv6 parse"),
    }
}

#[test]
fn test_is_private_ip() {
    let private = ["127.0.0.1", "192.168.1.1", "10.0.0.1", "172.16.0.1"];
    for ip in private {
        let parsed = parse_ip(ip).unwrap();
        assert!(is_private_ip(&parsed), "{ip} should be private");
    }
    let parsed = parse_ip("8.8.8.8").unwrap();
    assert!(!is_private_ip(&parsed));
}

#[test]
fn test_private_ipv6_addresses() {
    assert!(is_private_ip(&parse_ip("::1").unwrap()));
    assert!(is_private_ip(&parse_ip("::").unwrap()));
    assert!(is_private_ip(&parse_ip("0:0:0:0:0:0:0:1").unwrap()));
    assert!(!is_private_ip(&parse_ip("2001:4860:4860::8888").unwrap()));
}

#[test]
fn test_private_ipv4_edges() {
    assert!(is_private_ip(&parse_ip("255.255.255.255").unwrap()));
    assert!(is_private_ip(&parse_ip("0.0.0.0").unwrap()));
    assert!(is_private_ip(&parse_ip("169.254.10.20").unwrap()));
    assert!(is_private_ip(&parse_ip("172.31.255.255").unwrap()));
    assert!(!is_private_ip(&parse_ip("172.32.0.1").unwrap()));
}
