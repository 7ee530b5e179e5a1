//! IPv4 subnets as plain values, and the sweep that sends one ARP request to
//! each of their addresses.
//!
//! Enumeration is inclusive: the network and broadcast addresses are probed
//! too, in increasing order, as `ipnetwork` walks a network.
use vstd::prelude::*;
use crate::frame::{encode_arp_request, request_bytes};

verus! {

/// A CIDR range: an address and a prefix length of at most 32.
#[derive(Clone, Copy, Debug, PartialEq, Eq)]
pub struct Subnet {
    pub addr: u32,
    pub prefix: u8,
}

impl Subnet {
    pub open spec fn wf(self) -> bool {
        self.prefix <= 32
    }
}

/// The netmask of a prefix length.
pub open spec fn mask_of(prefix: u8) -> u32 {
    if prefix == 0 {
        0
    } else {
        0xffff_ffffu32 << ((32 - prefix) as u32)
    }
}

/// The lowest address of a subnet.
pub open spec fn network_of(s: Subnet) -> u32 {
    s.addr & mask_of(s.prefix)
}

/// How many addresses `ipnetwork` counts in a subnet: `2^(32 - prefix)`,
/// except that a `/0` is counted as `u32::MAX`.
pub open spec fn size_of(s: Subnet) -> u32 {
    if s.prefix == 0 {
        0xffff_ffffu32
    } else {
        1u32 << ((32 - s.prefix) as u32)
    }
}

/// The `n`-th address of a subnet, counted from its network address.
pub open spec fn host_at(s: Subnet, n: u32) -> u32 {
    (network_of(s) + n) as u32
}

/// Relies on ipnetwork's `Ipv4Network::new` and `Ipv4Network::size`: the
/// number of addresses in the network.
#[verifier::external_body]
fn network_size(s: &Subnet) -> (r: u32)
    requires
        s.wf(),
    ensures
        r == size_of(*s),
{
    match ipnetwork::Ipv4Network::new(s.addr.into(), s.prefix) {
        Ok(n) => n.size(),
        Err(_) => 0,
    }
}

/// Relies on ipnetwork's `Ipv4Network::new` and `Ipv4Network::nth`: the
/// network address plus `n`, for `n` below the size.
#[verifier::external_body]
fn network_nth(s: &Subnet, n: u32) -> (r: Option<u32>)
    requires
        s.wf(),
    ensures
        r == (if n < size_of(*s) { Some(host_at(*s, n)) } else { None::<u32> }),
{
    match ipnetwork::Ipv4Network::new(s.addr.into(), s.prefix) {
        Ok(net) => net.nth(n).map(u32::from),
        Err(_) => None,
    }
}

proof fn lemma_no_wrap(s: Subnet)
    requires
        s.wf(),
    ensures
        network_of(s) as int + size_of(s) as int <= 0x1_0000_0000,
{
    if s.prefix != 0 {
        let a = s.addr;
        let k = (32 - s.prefix) as u32;
        let n = a & (0xffff_ffffu32 << k);
        let z = 1u32 << k;
        assert(z >= 1u32 && n <= (0xffff_ffffu32 - ((z - 1u32) as u32)) as u32) by (bit_vector)
            requires
                k < 32,
                n == a & (0xffff_ffffu32 << k),
                z == 1u32 << k,
        ;
        assert(network_of(s) == n);
        assert(size_of(s) == z);
    } else {
        let a = s.addr;
        assert(a & 0u32 == 0u32) by (bit_vector);
    }
}

/// The sweep reaches each address of a subnet at most once: distinct indices
/// below the size name distinct addresses.
pub proof fn lemma_hosts_distinct(s: Subnet, i: u32, j: u32)
    requires
        s.wf(),
        i < size_of(s),
        j < size_of(s),
        i != j,
    ensures
        host_at(s, i) != host_at(s, j),
{
    lemma_no_wrap(s);
}

/// Whether an address lies in a subnet.
pub open spec fn in_subnet(s: Subnet, x: u32) -> bool {
    x & mask_of(s.prefix) == network_of(s)
}

/// Every address the sweep reaches lies in the subnet.
pub proof fn lemma_host_in_subnet(s: Subnet, n: u32)
    requires
        s.wf(),
        n < size_of(s),
    ensures
        in_subnet(s, host_at(s, n)),
{
    lemma_no_wrap(s);
    let a = s.addr;
    if s.prefix == 0 {
        let h = host_at(s, n);
        assert(h & 0u32 == 0u32 && a & 0u32 == 0u32) by (bit_vector);
    } else {
        let k = (32 - s.prefix) as u32;
        let m = 0xffff_ffffu32 << k;
        let z = 1u32 << k;
        let net = a & m;
        assert(network_of(s) == net);
        assert(size_of(s) == z);
        let h = (net + n) as u32;
        assert(h == host_at(s, n));
        assert(h & m == net) by (bit_vector)
            requires
                k < 32,
                m == 0xffff_ffffu32 << k,
                z == 1u32 << k,
                net == a & m,
                n < z,
                h == (net + n) as u32,
        ;
    }
}

/// Every address of a subnet is reached by the sweep: it is the address at
/// its offset from the network address. (A `/0` is left out: `ipnetwork`
/// counts it as `u32::MAX` addresses, one short of the whole space.)
pub proof fn lemma_subnet_covered(s: Subnet, x: u32)
    requires
        s.wf(),
        s.prefix >= 1,
        in_subnet(s, x),
    ensures
        (x - network_of(s)) < size_of(s),
        host_at(s, (x - network_of(s)) as u32) == x,
{
    let a = s.addr;
    let k = (32 - s.prefix) as u32;
    let m = 0xffff_ffffu32 << k;
    let z = 1u32 << k;
    let net = a & m;
    assert(network_of(s) == net);
    assert(size_of(s) == z);
    assert(x >= net && ((x - net) as u32) < z) by (bit_vector)
        requires
            k < 32,
            m == 0xffff_ffffu32 << k,
            z == 1u32 << k,
            net == a & m,
            x & m == net,
    ;
}

/// One ARP request for each address of a subnet, in increasing order.
pub struct ProbeSweep {
    subnet: Subnet,
    source_mac: [u8; 6],
    source_ip: u32,
    next: u32,
    total: u32,
}

impl ProbeSweep {
    pub closed spec fn wf(self) -> bool {
        self.subnet.wf() && self.total == size_of(self.subnet) && self.next <= self.total
    }

    pub closed spec fn subnet_spec(self) -> Subnet {
        self.subnet
    }

    /// How many requests have been handed out.
    pub closed spec fn sent_spec(self) -> u32 {
        self.next
    }

    pub closed spec fn source_mac_spec(self) -> Seq<u8> {
        self.source_mac@
    }

    pub closed spec fn source_ip_spec(self) -> u32 {
        self.source_ip
    }

    /// Starts a sweep of `subnet` on behalf of `source_mac`/`source_ip`.
    pub fn new(subnet: Subnet, source_mac: [u8; 6], source_ip: u32) -> (r: ProbeSweep)
        requires
            subnet.wf(),
        ensures
            r.wf(),
            r.subnet_spec() == subnet,
            r.sent_spec() == 0,
            r.source_mac_spec() == source_mac@,
            r.source_ip_spec() == source_ip,
    {
        let total = network_size(&subnet);
        ProbeSweep { subnet, source_mac, source_ip, next: 0, total }
    }

    /// How many requests the whole sweep sends.
    pub fn total(&self) -> (r: u32)
        requires
            self.wf(),
        ensures
            r == size_of(self.subnet_spec()),
    {
        self.total
    }

    /// The next address and the request frame for it, or `None` once every
    /// address has been handed out.
    pub fn next_probe(&mut self) -> (r: Option<(u32, Vec<u8>)>)
        requires
            old(self).wf(),
        ensures
            final(self).wf(),
            final(self).subnet_spec() == old(self).subnet_spec(),
            final(self).source_mac_spec() == old(self).source_mac_spec(),
            final(self).source_ip_spec() == old(self).source_ip_spec(),
            old(self).sent_spec() < size_of(old(self).subnet_spec()) ==> {
                &&& final(self).sent_spec() == old(self).sent_spec() + 1
                &&& r.is_some()
                &&& r.unwrap().0 == host_at(old(self).subnet_spec(), old(self).sent_spec())
                &&& r.unwrap().1@ == request_bytes(
                    old(self).source_mac_spec(),
                    old(self).source_ip_spec(),
                    r.unwrap().0,
                )
            },
            old(self).sent_spec() >= size_of(old(self).subnet_spec()) ==> r.is_none()
                && final(self).sent_spec() == old(self).sent_spec(),
    {
        if self.next >= self.total {
            return None;
        }
        match network_nth(&self.subnet, self.next) {
            Some(target) => {
                self.next = self.next + 1;
                Some((target, encode_arp_request(self.source_mac, self.source_ip, target)))
            },
            None => None,
        }
    }
}

} // verus!
