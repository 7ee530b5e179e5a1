use rusty_arp::frame::{arp_operation, decode_arp_reply, encode_arp_request, ArpDecode, ArpReply};

const MAC: [u8; 6] = [0x02, 0x11, 0x22, 0x33, 0x44, 0x55];

fn reply_frame(sender_mac: [u8; 6], sender_ip: [u8; 4], op: u8, ethertype: [u8; 2]) -> Vec<u8> {
    let mut f = Vec::new();
    f.extend_from_slice(&MAC);
    f.extend_from_slice(&sender_mac);
    f.extend_from_slice(&ethertype);
    f.extend_from_slice(&[0, 1, 0x08, 0x00, 6, 4, 0, op]);
    f.extend_from_slice(&sender_mac);
    f.extend_from_slice(&sender_ip);
    f.extend_from_slice(&MAC);
    f.extend_from_slice(&[192, 168, 1, 10]);
    f
}

#[test]
fn request_has_exact_layout() {
    let f = encode_arp_request(MAC, 0xC0A8_010A, 0xC0A8_0102);
    let expected: Vec<u8> = vec![
        0xff, 0xff, 0xff, 0xff, 0xff, 0xff, 0x02, 0x11, 0x22, 0x33, 0x44, 0x55, 0x08, 0x06, 0x00,
        0x01, 0x08, 0x00, 6, 4, 0x00, 0x01, 0x02, 0x11, 0x22, 0x33, 0x44, 0x55, 192, 168, 1, 10,
        0, 0, 0, 0, 0, 0, 192, 168, 1, 2,
    ];
    assert_eq!(f, expected);
    assert_eq!(f.len(), 42);
}

#[test]
fn request_reads_back_as_request() {
    let f = encode_arp_request(MAC, 0x0A00_0001, 0x0A00_00FE);
    assert_eq!(arp_operation(&f), Some(1));
    assert_eq!(decode_arp_reply(&f), ArpDecode::NotReply);
}

#[test]
fn reply_is_decoded() {
    let peer = [0xaa, 0xbb, 0xcc, 0xdd, 0xee, 0xff];
    let f = reply_frame(peer, [192, 168, 1, 1], 2, [0x08, 0x06]);
    assert_eq!(
        decode_arp_reply(&f),
        ArpDecode::Reply(ArpReply { sender_ip: 0xC0A8_0101, sender_mac: peer })
    );
}

#[test]
fn non_arp_ethertype_is_rejected() {
    let f = reply_frame([1, 2, 3, 4, 5, 6], [192, 168, 1, 1], 2, [0x08, 0x00]);
    assert_eq!(decode_arp_reply(&f), ArpDecode::NotArp);
    assert_eq!(arp_operation(&f), None);
}

#[test]
fn truncated_frame_fails_closed() {
    let f = reply_frame([1, 2, 3, 4, 5, 6], [192, 168, 1, 1], 2, [0x08, 0x06]);
    assert_eq!(decode_arp_reply(&f[..41]), ArpDecode::NotArp);
    assert_eq!(decode_arp_reply(&[]), ArpDecode::NotArp);
    assert_eq!(decode_arp_reply(&f[..13]), ArpDecode::NotArp);
}

#[test]
fn longer_frame_with_padding_is_read() {
    let mut f = reply_frame([1, 2, 3, 4, 5, 6], [10, 0, 0, 7], 2, [0x08, 0x06]);
    f.extend_from_slice(&[0u8; 18]);
    assert_eq!(
        decode_arp_reply(&f),
        ArpDecode::Reply(ArpReply { sender_ip: 0x0A00_0007, sender_mac: [1, 2, 3, 4, 5, 6] })
    );
}
