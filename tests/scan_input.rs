use rusty_arp::input::{parse_source_ip, parse_subnet, validate_scan_input, ScanInputError, ScanRequest};
use rusty_arp::subnet::Subnet;

#[test]
fn not_a_cidr_is_rejected() {
    assert_eq!(
        validate_scan_input("192.168.1.10", "not-a-cidr"),
        Err(ScanInputError::InvalidSubnet)
    );
}

#[test]
fn bad_source_is_rejected_first() {
    assert_eq!(
        validate_scan_input("192.168.1", "not-a-cidr"),
        Err(ScanInputError::InvalidSourceAddress)
    );
    assert_eq!(parse_source_ip("192.168.1.10/24"), Err(ScanInputError::InvalidSourceAddress));
    assert_eq!(parse_source_ip("256.1.1.1"), Err(ScanInputError::InvalidSourceAddress));
    assert_eq!(parse_source_ip(""), Err(ScanInputError::InvalidSourceAddress));
}

#[test]
fn valid_inputs_are_read() {
    assert_eq!(
        validate_scan_input("192.168.1.10", "192.168.1.0/30"),
        Ok(ScanRequest {
            source_ip: 0xC0A8_010A,
            subnet: Subnet { addr: 0xC0A8_0100, prefix: 30 },
        })
    );
}

#[test]
fn subnet_keeps_given_address_and_prefix() {
    assert_eq!(parse_subnet("10.1.9.32/16"), Ok(Subnet { addr: 0x0A01_0920, prefix: 16 }));
    assert_eq!(parse_subnet("10.0.0.1"), Ok(Subnet { addr: 0x0A00_0001, prefix: 32 }));
}

#[test]
fn subnet_prefix_out_of_range_is_rejected() {
    assert_eq!(parse_subnet("10.0.0.0/33"), Err(ScanInputError::InvalidSubnet));
    assert_eq!(parse_subnet("10.0.0.0/8/8"), Err(ScanInputError::InvalidSubnet));
}
