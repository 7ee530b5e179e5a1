//! Validation of the textual inputs of a scan, before any resource is opened.
use vstd::prelude::*;
use crate::subnet::Subnet;
use vstd::string::StringSliceAdditionalSpecFns;

verus! {

/// The address and prefix length that `ipnetwork` reads from a CIDR text, or
/// `None` where it refuses the text.
pub uninterp spec fn cidr_of(s: Seq<char>) -> Option<(u32, u8)>;

/// Whether a text holds a `/`.
pub open spec fn has_slash(b: Seq<u8>) -> bool {
    exists|i: int| 0 <= i < b.len() && b[i] == 0x2fu8
}

/// Relies on ipnetwork's `Ipv4Network::from_str`: it yields a prefix of at
/// most 32, and a text without `/` is read as a bare address with prefix 32.
#[verifier::external_body]
fn parse_cidr(s: &str) -> (r: Option<(u32, u8)>)
    ensures
        r == cidr_of(s@),
        r.is_some() ==> r.unwrap().1 <= 32,
        r.is_some() && !has_slash(s.spec_bytes()) ==> r.unwrap().1 == 32,
{
    s.parse::<ipnetwork::Ipv4Network>().ok().map(|n| (u32::from(n.ip()), n.prefix()))
}

/// Why the inputs of a scan were refused.
#[derive(Clone, Copy, Debug, PartialEq, Eq)]
pub enum ScanInputError {
    InvalidSourceAddress,
    InvalidSubnet,
}

/// Validated inputs of an ARP scan.
#[derive(Clone, Copy, Debug, PartialEq, Eq)]
pub struct ScanRequest {
    pub source_ip: u32,
    pub subnet: Subnet,
}

fn contains_slash(s: &str) -> (r: bool)
    ensures
        r == has_slash(s.spec_bytes()),
{
    let b = s.as_bytes();
    let mut i: usize = 0;
    while i < b.len()
        invariant
            0 <= i <= b@.len(),
            b@ == s.spec_bytes(),
            forall|k: int| 0 <= k < i ==> b@[k] != 0x2fu8,
        decreases b@.len() - i,
    {
        if b[i] == 0x2fu8 {
            return true;
        }
        i = i + 1;
    }
    false
}

/// What `parse_source_ip` returns for a text.
pub open spec fn source_ip_result(s: &str) -> Result<u32, ScanInputError> {
    if has_slash(s.spec_bytes()) {
        Err(ScanInputError::InvalidSourceAddress)
    } else {
        match cidr_of(s@) {
            Some(p) => Ok(p.0),
            None => Err(ScanInputError::InvalidSourceAddress),
        }
    }
}

/// What `parse_subnet` returns for a text.
pub open spec fn subnet_result(s: &str) -> Result<Subnet, ScanInputError> {
    match cidr_of(s@) {
        Some(p) => Ok(Subnet { addr: p.0, prefix: p.1 }),
        None => Err(ScanInputError::InvalidSubnet),
    }
}

/// Reads a dotted-quad IPv4 address; a CIDR suffix is refused.
pub fn parse_source_ip(text: &str) -> (r: Result<u32, ScanInputError>)
    ensures
        r == source_ip_result(text),
{
    if contains_slash(text) {
        return Err(ScanInputError::InvalidSourceAddress);
    }
    match parse_cidr(text) {
        Some(p) => Ok(p.0),
        None => Err(ScanInputError::InvalidSourceAddress),
    }
}

/// Reads a subnet in CIDR notation (`a.b.c.d/p`; a bare address is a `/32`).
pub fn parse_subnet(text: &str) -> (r: Result<Subnet, ScanInputError>)
    ensures
        r == subnet_result(text),
        r.is_ok() ==> r.unwrap().wf(),
{
    match parse_cidr(text) {
        Some(p) => Ok(Subnet { addr: p.0, prefix: p.1 }),
        None => Err(ScanInputError::InvalidSubnet),
    }
}

/// Validates the source address, then the subnet, of an ARP scan. It opens
/// nothing: a caller acquires the channel only on `Ok`.
pub fn validate_scan_input(source_ip: &str, subnet: &str) -> (r: Result<ScanRequest, ScanInputError>)
    ensures
        r == (match source_ip_result(source_ip) {
            Err(e) => Err(e),
            Ok(ip) => match subnet_result(subnet) {
                Err(e) => Err(e),
                Ok(net) => Ok(ScanRequest { source_ip: ip, subnet: net }),
            },
        }),
        r.is_ok() ==> r.unwrap().subnet.wf(),
{
    let ip = match parse_source_ip(source_ip) {
        Ok(ip) => ip,
        Err(e) => return Err(e),
    };
    let net = match parse_subnet(subnet) {
        Ok(net) => net,
        Err(e) => return Err(e),
    };
    Ok(ScanRequest { source_ip: ip, subnet: net })
}

} // verus!
