use rusty_arp::frame::encode_arp_request;
use rusty_arp::subnet::{ProbeSweep, Subnet};

const MAC: [u8; 6] = [0x02, 0, 0, 0, 0, 1];

#[test]
fn slash_30_probes_each_address_once() {
    let net = Subnet { addr: 0xC0A8_0100, prefix: 30 };
    let mut sweep = ProbeSweep::new(net, MAC, 0xC0A8_0164);
    assert_eq!(sweep.total(), 4);
    let mut targets = Vec::new();
    while let Some((ip, frame)) = sweep.next_probe() {
        assert_eq!(frame, encode_arp_request(MAC, 0xC0A8_0164, ip));
        targets.push(ip);
    }
    assert_eq!(targets, vec![0xC0A8_0100, 0xC0A8_0101, 0xC0A8_0102, 0xC0A8_0103]);
    assert!(sweep.next_probe().is_none());
}

#[test]
fn sweep_starts_at_network_address() {
    let net = Subnet { addr: 0x0A01_0920, prefix: 16 };
    let mut sweep = ProbeSweep::new(net, MAC, 0x0A01_0001);
    assert_eq!(sweep.total(), 65536);
    assert_eq!(sweep.next_probe().map(|p| p.0), Some(0x0A01_0000));
    assert_eq!(sweep.next_probe().map(|p| p.0), Some(0x0A01_0001));
}

#[test]
fn slash_32_probes_one_address() {
    let net = Subnet { addr: 0x0A00_0005, prefix: 32 };
    let mut sweep = ProbeSweep::new(net, MAC, 0x0A00_0001);
    assert_eq!(sweep.total(), 1);
    assert_eq!(sweep.next_probe().map(|p| p.0), Some(0x0A00_0005));
    assert!(sweep.next_probe().is_none());
}

#[test]
fn slash_24_counts_256() {
    let net = Subnet { addr: 0xC0A8_0107, prefix: 24 };
    let mut sweep = ProbeSweep::new(net, MAC, 0xC0A8_0101);
    let mut n: u32 = 0;
    let mut last = 0;
    while let Some((ip, _)) = sweep.next_probe() {
        n += 1;
        last = ip;
    }
    assert_eq!(n, 256);
    assert_eq!(last, 0xC0A8_01FF);
}

#[test]
fn slash_0_is_counted_as_ipnetwork_counts_it() {
    let net = Subnet { addr: 0x0102_0304, prefix: 0 };
    let mut sweep = ProbeSweep::new(net, MAC, 0x0A00_0001);
    assert_eq!(sweep.total(), u32::MAX);
    assert_eq!(sweep.next_probe().map(|p| p.0), Some(0));
}
