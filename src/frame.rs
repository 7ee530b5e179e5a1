//! Building ARP request frames and reading ARP replies, byte for byte.
use vstd::prelude::*;

verus! {

/// Length of an Ethernet header followed by an ARP message for IPv4.
pub const FRAME_LEN: usize = 42;

/// Length of the Ethernet header.
pub const ETHERNET_HEADER_LEN: usize = 14;

/// EtherType of ARP.
pub const ETHERTYPE_ARP: u16 = 0x0806;

/// EtherType of IPv4, used as ARP's protocol type.
pub const ETHERTYPE_IPV4: u16 = 0x0800;

/// ARP hardware type of Ethernet.
pub const HARDWARE_ETHERNET: u16 = 1;

/// ARP operation: request.
pub const OP_REQUEST: u16 = 1;

/// ARP operation: reply.
pub const OP_REPLY: u16 = 2;

/// The four bytes of an IPv4 address, most significant first.
pub open spec fn ip_bytes(a: u32) -> Seq<u8> {
    seq![
        ((a >> 24u32) & 0xffu32) as u8,
        ((a >> 16u32) & 0xffu32) as u8,
        ((a >> 8u32) & 0xffu32) as u8,
        (a & 0xffu32) as u8,
    ]
}

/// The big-endian 16-bit value of two bytes.
pub open spec fn be16(hi: u8, lo: u8) -> u16 {
    (hi as u16 * 256 + lo as u16) as u16
}

/// The two bytes of a 16-bit value, most significant first.
pub open spec fn u16_bytes(v: u16) -> Seq<u8> {
    seq![(v / 256) as u8, (v % 256) as u8]
}

/// The big-endian 32-bit value of four bytes.
pub open spec fn be32(b0: u8, b1: u8, b2: u8, b3: u8) -> u32 {
    ((b0 as u32) << 24u32) | ((b1 as u32) << 16u32) | ((b2 as u32) << 8u32) | (b3 as u32)
}

/// The broadcast hardware address.
pub open spec fn broadcast_mac() -> Seq<u8> {
    seq![0xffu8, 0xffu8, 0xffu8, 0xffu8, 0xffu8, 0xffu8]
}

/// The all-zero hardware address.
pub open spec fn zero_mac() -> Seq<u8> {
    seq![0u8, 0u8, 0u8, 0u8, 0u8, 0u8]
}

/// The bytes of an ARP request from (`mac`, `sender`) asking for `target`,
/// broadcast in an Ethernet frame.
pub open spec fn request_bytes(mac: Seq<u8>, sender: u32, target: u32) -> Seq<u8> {
    broadcast_mac() + mac + u16_bytes(ETHERTYPE_ARP) + u16_bytes(HARDWARE_ETHERNET)
        + u16_bytes(ETHERTYPE_IPV4) + seq![6u8, 4u8] + u16_bytes(OP_REQUEST) + mac
        + ip_bytes(sender) + zero_mac() + ip_bytes(target)
}

/// The EtherType field of a frame.
pub open spec fn ethertype_of(f: Seq<u8>) -> u16 {
    be16(f[12], f[13])
}

/// Whether a frame is long enough to hold an Ethernet header and an IPv4 ARP
/// message, and says it carries ARP.
pub open spec fn is_arp_frame(f: Seq<u8>) -> bool {
    f.len() >= FRAME_LEN && ethertype_of(f) == ETHERTYPE_ARP
}

/// The ARP operation field of a frame.
pub open spec fn operation_of(f: Seq<u8>) -> u16 {
    be16(f[20], f[21])
}

/// The sender hardware address of an ARP frame.
pub open spec fn sender_mac_of(f: Seq<u8>) -> Seq<u8> {
    f.subrange(22, 28)
}

/// The sender protocol address of an ARP frame.
pub open spec fn sender_ip_of(f: Seq<u8>) -> u32 {
    be32(f[28], f[29], f[30], f[31])
}

/// The target hardware address of an ARP frame.
pub open spec fn target_mac_of(f: Seq<u8>) -> Seq<u8> {
    f.subrange(32, 38)
}

/// The target protocol address of an ARP frame.
pub open spec fn target_ip_of(f: Seq<u8>) -> u32 {
    be32(f[38], f[39], f[40], f[41])
}

/// What a received ARP reply tells: who answered, and with which address.
#[derive(Clone, Copy, Debug, PartialEq, Eq)]
pub struct ArpReply {
    pub sender_ip: u32,
    pub sender_mac: [u8; 6],
}

/// The outcome of reading an inbound frame.
#[derive(Clone, Copy, Debug, PartialEq, Eq)]
pub enum ArpDecode {
    Reply(ArpReply),
    /// Not an ARP frame, or too short to be read as one.
    NotArp,
    /// An ARP frame whose operation is not a reply.
    NotReply,
}

/// What `decode_arp_reply` makes of a frame.
pub open spec fn decode_matches(f: Seq<u8>, r: ArpDecode) -> bool {
    match r {
        ArpDecode::NotArp => !is_arp_frame(f),
        ArpDecode::NotReply => is_arp_frame(f) && operation_of(f) != OP_REPLY,
        ArpDecode::Reply(rep) => is_arp_frame(f) && operation_of(f) == OP_REPLY
            && rep.sender_ip == sender_ip_of(f) && rep.sender_mac@ == sender_mac_of(f),
    }
}

fn push_ip(v: &mut Vec<u8>, a: u32)
    ensures
        final(v)@ == old(v)@ + ip_bytes(a),
{
    v.push(((a >> 24u32) & 0xffu32) as u8);
    v.push(((a >> 16u32) & 0xffu32) as u8);
    v.push(((a >> 8u32) & 0xffu32) as u8);
    v.push((a & 0xffu32) as u8);
    assert(final(v)@ =~= old(v)@ + ip_bytes(a));
}

fn push_u16(v: &mut Vec<u8>, x: u16)
    ensures
        final(v)@ == old(v)@ + u16_bytes(x),
{
    v.push((x / 256) as u8);
    v.push((x % 256) as u8);
    assert(final(v)@ =~= old(v)@ + u16_bytes(x));
}

fn push_mac(v: &mut Vec<u8>, mac: &[u8; 6])
    ensures
        final(v)@ == old(v)@ + mac@,
{
    let mut i: usize = 0;
    while i < 6
        invariant
            0 <= i <= 6,
            v@ == old(v)@ + mac@.subrange(0, i as int),
        decreases 6 - i,
    {
        v.push(mac[i]);
        assert(mac@.subrange(0, i + 1) =~= mac@.subrange(0, i as int).push(mac@[i as int]));
        i = i + 1;
    }
    assert(mac@.subrange(0, 6) =~= mac@);
}

/// Builds the broadcast ARP request by which `source_mac`/`source_ip` asks who
/// holds `target_ip`.
pub fn encode_arp_request(source_mac: [u8; 6], source_ip: u32, target_ip: u32) -> (r: Vec<u8>)
    ensures
        r@ == request_bytes(source_mac@, source_ip, target_ip),
        r@.len() == FRAME_LEN,
{
    let mut v: Vec<u8> = Vec::new();
    push_mac(&mut v, &[0xffu8; 6]);
    assert(v@ =~= broadcast_mac());
    push_mac(&mut v, &source_mac);
    push_u16(&mut v, ETHERTYPE_ARP);
    push_u16(&mut v, HARDWARE_ETHERNET);
    push_u16(&mut v, ETHERTYPE_IPV4);
    v.push(6u8);
    v.push(4u8);
    push_u16(&mut v, OP_REQUEST);
    push_mac(&mut v, &source_mac);
    push_ip(&mut v, source_ip);
    push_mac(&mut v, &[0u8; 6]);
    push_ip(&mut v, target_ip);
    assert(v@ =~= request_bytes(source_mac@, source_ip, target_ip));
    v
}

fn read_u16(f: &[u8], at: usize) -> (r: u16)
    requires
        at + 1 < f@.len(),
    ensures
        r == be16(f@[at as int], f@[at + 1]),
{
    (f[at] as u16) * 256 + (f[at + 1] as u16)
}

fn read_u32(f: &[u8], at: usize) -> (r: u32)
    requires
        at + 3 < f@.len(),
    ensures
        r == be32(f@[at as int], f@[at + 1], f@[at + 2], f@[at + 3]),
{
    ((f[at] as u32) << 24u32) | ((f[at + 1] as u32) << 16u32) | ((f[at + 2] as u32) << 8u32)
        | (f[at + 3] as u32)
}

/// The ARP operation of a frame, or `None` where it is no ARP frame (or too
/// short to be read as one).
pub fn arp_operation(frame: &[u8]) -> (r: Option<u16>)
    ensures
        r == (if is_arp_frame(frame@) { Some(operation_of(frame@)) } else { None::<u16> }),
{
    if frame.len() < FRAME_LEN || read_u16(frame, 12) != ETHERTYPE_ARP {
        None
    } else {
        Some(read_u16(frame, 20))
    }
}

/// Reads an inbound frame as an ARP reply. Frames that are too short fail
/// closed as `NotArp`.
pub fn decode_arp_reply(frame: &[u8]) -> (r: ArpDecode)
    ensures
        decode_matches(frame@, r),
{
    match arp_operation(frame) {
        None => ArpDecode::NotArp,
        Some(op) => {
            if op != OP_REPLY {
                ArpDecode::NotReply
            } else {
                let mut mac = [0u8; 6];
                let mut i: usize = 0;
                while i < 6
                    invariant
                        0 <= i <= 6,
                        frame@.len() >= FRAME_LEN,
                        mac@.len() == 6,
                        forall|k: int| 0 <= k < i ==> mac@[k] == frame@[22 + k],
                    decreases 6 - i,
                {
                    mac[i] = frame[22 + i];
                    i = i + 1;
                }
                assert(mac@ =~= sender_mac_of(frame@));
                ArpDecode::Reply(ArpReply { sender_ip: read_u32(frame, 28), sender_mac: mac })
            }
        },
    }
}

proof fn lemma_ip_bytes_round_trip(a: u32)
    ensures
        be32(ip_bytes(a)[0], ip_bytes(a)[1], ip_bytes(a)[2], ip_bytes(a)[3]) == a,
{
    let b0 = ((a >> 24u32) & 0xffu32) as u8;
    let b1 = ((a >> 16u32) & 0xffu32) as u8;
    let b2 = ((a >> 8u32) & 0xffu32) as u8;
    let b3 = (a & 0xffu32) as u8;
    assert(((b0 as u32) << 24u32) | ((b1 as u32) << 16u32) | ((b2 as u32) << 8u32) | (b3 as u32)
        == a) by (bit_vector)
        requires
            b0 == ((a >> 24u32) & 0xffu32) as u8,
            b1 == ((a >> 16u32) & 0xffu32) as u8,
            b2 == ((a >> 8u32) & 0xffu32) as u8,
            b3 == (a & 0xffu32) as u8,
    ;
}

/// An encoded request reads back as an ARP frame whose operation is a
/// request, with the sender and target fields it was built from; read as a
/// reply, it is refused as `NotReply`.
pub proof fn lemma_request_round_trip(mac: Seq<u8>, sender: u32, target: u32)
    requires
        mac.len() == 6,
    ensures
        is_arp_frame(request_bytes(mac, sender, target)),
        operation_of(request_bytes(mac, sender, target)) == OP_REQUEST,
        sender_mac_of(request_bytes(mac, sender, target)) == mac,
        sender_ip_of(request_bytes(mac, sender, target)) == sender,
        target_mac_of(request_bytes(mac, sender, target)) == zero_mac(),
        target_ip_of(request_bytes(mac, sender, target)) == target,
        forall|r: ArpDecode|
            decode_matches(request_bytes(mac, sender, target), r) ==> r == ArpDecode::NotReply,
{
    let f = request_bytes(mac, sender, target);
    lemma_ip_bytes_round_trip(sender);
    lemma_ip_bytes_round_trip(target);
    assert(f.len() == 42);
    assert(f[12] == 8u8 && f[13] == 6u8);
    assert(f[20] == 0u8 && f[21] == 1u8);
    assert(f.subrange(22, 28) =~= mac);
    assert(f.subrange(32, 38) =~= zero_mac());
    assert(f[28] == ip_bytes(sender)[0] && f[29] == ip_bytes(sender)[1]);
    assert(f[30] == ip_bytes(sender)[2] && f[31] == ip_bytes(sender)[3]);
    assert(f[38] == ip_bytes(target)[0] && f[39] == ip_bytes(target)[1]);
    assert(f[40] == ip_bytes(target)[2] && f[41] == ip_bytes(target)[3]);
}

/// A frame whose EtherType is not ARP is always read as `NotArp`.
pub proof fn lemma_non_arp_rejected(f: Seq<u8>, r: ArpDecode)
    requires
        f.len() >= ETHERNET_HEADER_LEN,
        ethertype_of(f) != ETHERTYPE_ARP,
        decode_matches(f, r),
    ensures
        r == ArpDecode::NotArp,
{
}

} // verus!
