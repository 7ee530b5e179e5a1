use rusty_arp::listener::{HostRecord, ListenAction, Listener};

const LOCAL: u32 = 0xC0A8_010A;

fn reply(sender_mac: [u8; 6], sender_ip: [u8; 4], op: u8) -> Vec<u8> {
    let mut f = Vec::new();
    f.extend_from_slice(&[2, 0, 0, 0, 0, 1]);
    f.extend_from_slice(&sender_mac);
    f.extend_from_slice(&[0x08, 0x06, 0, 1, 0x08, 0x00, 6, 4, 0, op]);
    f.extend_from_slice(&sender_mac);
    f.extend_from_slice(&sender_ip);
    f.extend_from_slice(&[2, 0, 0, 0, 0, 1, 192, 168, 1, 10]);
    f
}

#[test]
fn remote_reply_is_recorded() {
    let mut l = Listener::new(LOCAL, 3000, false);
    let peer = [0xaa, 0xbb, 0xcc, 0, 0, 1];
    assert_eq!(l.on_frame(&reply(peer, [192, 168, 1, 1], 2), 15), ListenAction::Continue);
    assert_eq!(
        l.into_records(),
        vec![HostRecord { ip_address: 0xC0A8_0101, mac_address: peer, observed_at_ms: 15 }]
    );
}

#[test]
fn self_reply_is_never_recorded() {
    let mut l = Listener::new(LOCAL, 3000, false);
    l.on_frame(&reply([2, 0, 0, 0, 0, 1], [192, 168, 1, 10], 2), 5);
    assert!(l.records().is_empty());
}

#[test]
fn requests_and_other_frames_are_ignored() {
    let mut l = Listener::new(LOCAL, 3000, false);
    l.on_frame(&reply([1, 1, 1, 1, 1, 1], [192, 168, 1, 2], 1), 5);
    let mut ipv4 = reply([1, 1, 1, 1, 1, 1], [192, 168, 1, 2], 2);
    ipv4[13] = 0x00;
    l.on_frame(&ipv4, 6);
    l.on_frame(&[0u8; 10], 7);
    assert!(l.records().is_empty());
}

#[test]
fn window_closes_after_timeout() {
    let mut l = Listener::new(LOCAL, 3000, false);
    assert_eq!(l.on_receive_error(3000), ListenAction::Continue);
    assert_eq!(l.on_receive_error(3001), ListenAction::Stop);
    assert_eq!(l.on_frame(&[], 4000), ListenAction::Stop);
}

#[test]
fn late_reply_is_still_kept_in_the_closing_event() {
    let mut l = Listener::new(LOCAL, 100, false);
    assert_eq!(l.on_frame(&reply([3; 6], [192, 168, 1, 3], 2), 150), ListenAction::Stop);
    assert_eq!(l.records().len(), 1);
}

#[test]
fn duplicates_are_kept_without_dedup() {
    let mut l = Listener::new(LOCAL, 3000, false);
    let f = reply([4; 6], [192, 168, 1, 4], 2);
    l.on_frame(&f, 1);
    l.on_frame(&f, 2);
    assert_eq!(l.records().len(), 2);
}

#[test]
fn duplicates_are_dropped_with_dedup() {
    let mut l = Listener::new(LOCAL, 3000, true);
    let f = reply([4; 6], [192, 168, 1, 4], 2);
    l.on_frame(&f, 1);
    l.on_frame(&f, 2);
    l.on_frame(&reply([5; 6], [192, 168, 1, 5], 2), 3);
    let ips: Vec<u32> = l.records().iter().map(|r| r.ip_address).collect();
    assert_eq!(ips, vec![0xC0A8_0104, 0xC0A8_0105]);
    assert_eq!(l.records()[0].observed_at_ms, 1);
}

#[test]
fn cancel_stops_the_window_early() {
    let mut l = Listener::new(LOCAL, 3000, false);
    l.on_frame(&reply([6; 6], [192, 168, 1, 6], 2), 10);
    l.cancel();
    assert_eq!(l.on_receive_error(20), ListenAction::Stop);
    assert_eq!(l.records().len(), 1);
}
