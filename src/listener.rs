//! The decisions of the reply listener: which inbound frames become host
//! records, and when the listening window is over.
//!
//! The window is measured from the listener's own start and is not extended
//! while requests are still being sent: where sending outlasts the window,
//! late replies are dropped. The driver owns the receive half of the channel
//! and the clock, and hands each event to `Listener`.
use vstd::prelude::*;
use crate::frame::{decode_arp_reply, ArpDecode, is_arp_frame, operation_of, sender_ip_of,
    sender_mac_of, OP_REPLY};

verus! {

/// A host that answered: its address, its hardware address, and when the
/// reply was seen, in milliseconds since the listener started.
#[derive(Clone, Copy, Debug, PartialEq, Eq)]
pub struct HostRecord {
    pub ip_address: u32,
    pub mac_address: [u8; 6],
    pub observed_at_ms: u64,
}

/// What the driver does after an event.
#[derive(Clone, Copy, Debug, PartialEq, Eq)]
pub enum ListenAction {
    /// Keep receiving.
    Continue,
    /// The window is over: stop and hand back the records.
    Stop,
}

/// The action owed at `elapsed_ms` for a window of `timeout_ms`.
pub open spec fn deadline_action(timeout_ms: u64, elapsed_ms: u64) -> ListenAction {
    if elapsed_ms > timeout_ms {
        ListenAction::Stop
    } else {
        ListenAction::Continue
    }
}

/// The state of one listening window.
pub struct Listener {
    source_ip: u32,
    timeout_ms: u64,
    dedup: bool,
    cancelled: bool,
    records: Vec<HostRecord>,
}

impl Listener {
    pub closed spec fn source_ip_spec(self) -> u32 {
        self.source_ip
    }

    pub closed spec fn timeout_spec(self) -> u64 {
        self.timeout_ms
    }

    pub closed spec fn dedup_spec(self) -> bool {
        self.dedup
    }

    /// Whether the window was cancelled before its end.
    pub closed spec fn cancelled_spec(self) -> bool {
        self.cancelled
    }

    /// The action owed at `elapsed_ms`: stop once cancelled or past the window.
    pub open spec fn action_at(self, elapsed_ms: u64) -> ListenAction {
        if self.cancelled_spec() {
            ListenAction::Stop
        } else {
            deadline_action(self.timeout_spec(), elapsed_ms)
        }
    }

    pub closed spec fn records_spec(self) -> Seq<HostRecord> {
        self.records@
    }

    /// Whether some record already holds `ip`.
    pub open spec fn has_record(self, ip: u32) -> bool {
        exists|i: int| 0 <= i < self.records_spec().len() && self.records_spec()[i].ip_address == ip
    }

    /// No record is of the local address; with deduplication on, no address
    /// is recorded twice.
    pub open spec fn wf(self) -> bool {
        &&& forall|i: int| 0 <= i < self.records_spec().len()
            ==> self.records_spec()[i].ip_address != self.source_ip_spec()
        &&& self.dedup_spec() ==> forall|i: int, j: int|
            0 <= i < j < self.records_spec().len()
            ==> self.records_spec()[i].ip_address != self.records_spec()[j].ip_address
    }

    /// Whether a frame becomes a record: an ARP reply from an address other
    /// than the local one (and, with deduplication on, not yet recorded).
    pub open spec fn accepts(self, f: Seq<u8>) -> bool {
        &&& is_arp_frame(f)
        &&& operation_of(f) == OP_REPLY
        &&& sender_ip_of(f) != self.source_ip_spec()
        &&& !(self.dedup_spec() && self.has_record(sender_ip_of(f)))
    }

    /// Starts a window of `timeout_ms` for replies to requests sent from
    /// `source_ip`. With `dedup`, only the first reply of each address is kept.
    pub fn new(source_ip: u32, timeout_ms: u64, dedup: bool) -> (r: Listener)
        ensures
            r.wf(),
            r.source_ip_spec() == source_ip,
            r.timeout_spec() == timeout_ms,
            r.dedup_spec() == dedup,
            !r.cancelled_spec(),
            r.records_spec() == Seq::<HostRecord>::empty(),
    {
        Listener { source_ip, timeout_ms, dedup, cancelled: false, records: Vec::new() }
    }

    /// Ends the window early: every later event is answered with `Stop`.
    pub fn cancel(&mut self)
        requires
            old(self).wf(),
        ensures
            final(self).wf(),
            final(self).cancelled_spec(),
            final(self).source_ip_spec() == old(self).source_ip_spec(),
            final(self).timeout_spec() == old(self).timeout_spec(),
            final(self).dedup_spec() == old(self).dedup_spec(),
            final(self).records_spec() == old(self).records_spec(),
    {
        let ghost pre = *self;
        self.cancelled = true;
        assert(self.records_spec() == pre.records_spec());
        assert(self.source_ip_spec() == pre.source_ip_spec());
        assert(self.dedup_spec() == pre.dedup_spec());
    }

    fn knows(&self, ip: u32) -> (r: bool)
        ensures
            r == self.has_record(ip),
    {
        let mut i: usize = 0;
        while i < self.records.len()
            invariant
                0 <= i <= self.records@.len(),
                forall|k: int| 0 <= k < i ==> self.records@[k].ip_address != ip,
            decreases self.records@.len() - i,
        {
            if self.records[i].ip_address == ip {
                assert(self.records_spec()[i as int].ip_address == ip);
                return true;
            }
            i = i + 1;
        }
        false
    }

    /// Handles a frame received `elapsed_ms` after the window opened.
    pub fn on_frame(&mut self, frame: &[u8], elapsed_ms: u64) -> (r: ListenAction)
        requires
            old(self).wf(),
        ensures
            final(self).wf(),
            final(self).source_ip_spec() == old(self).source_ip_spec(),
            final(self).timeout_spec() == old(self).timeout_spec(),
            final(self).dedup_spec() == old(self).dedup_spec(),
            final(self).cancelled_spec() == old(self).cancelled_spec(),
            r == old(self).action_at(elapsed_ms),
            old(self).accepts(frame@) ==> {
                let n = old(self).records_spec().len() as int;
                &&& final(self).records_spec().len() == n + 1
                &&& final(self).records_spec().subrange(0, n) == old(self).records_spec()
                &&& final(self).records_spec()[n].ip_address == sender_ip_of(frame@)
                &&& final(self).records_spec()[n].mac_address@ == sender_mac_of(frame@)
                &&& final(self).records_spec()[n].observed_at_ms == elapsed_ms
            },
            !old(self).accepts(frame@) ==> final(self).records_spec() == old(self).records_spec(),
    {
        if let ArpDecode::Reply(reply) = decode_arp_reply(frame) {
            if reply.sender_ip != self.source_ip && !(self.dedup && self.knows(reply.sender_ip)) {
                assert(self.dedup ==> !self.has_record(reply.sender_ip));
                assert(forall|k: int| 0 <= k < self.records_spec().len() && self.dedup
                    ==> self.records_spec()[k].ip_address != reply.sender_ip);
                let ghost before = self.records@;
                self.records.push(HostRecord {
                    ip_address: reply.sender_ip,
                    mac_address: reply.sender_mac,
                    observed_at_ms: elapsed_ms,
                });
                assert(self.records@.subrange(0, before.len() as int) =~= before);
                assert forall|i: int, j: int|
                    self.dedup && 0 <= i < j < self.records@.len()
                    implies self.records@[i].ip_address != self.records@[j].ip_address by {
                    if j == before.len() {
                        assert(before[i].ip_address == self.records@[i].ip_address);
                    }
                }
            }
        }
        self.on_receive_error(elapsed_ms)
    }

    /// Handles a failed receive at `elapsed_ms`: it changes no record.
    pub fn on_receive_error(&self, elapsed_ms: u64) -> (r: ListenAction)
        ensures
            r == self.action_at(elapsed_ms),
    {
        if self.cancelled || elapsed_ms > self.timeout_ms {
            ListenAction::Stop
        } else {
            ListenAction::Continue
        }
    }

    /// The records so far, in order of arrival.
    pub fn records(&self) -> (r: &Vec<HostRecord>)
        ensures
            r@ == self.records_spec(),
    {
        &self.records
    }

    /// Ends the window and hands back the records, in order of arrival.
    pub fn into_records(self) -> (r: Vec<HostRecord>)
        ensures
            r@ == self.records_spec(),
    {
        self.records
    }
}

/// A reply whose sender is the local address never becomes a record.
pub proof fn lemma_self_reply_ignored(l: Listener, f: Seq<u8>)
    requires
        sender_ip_of(f) == l.source_ip_spec(),
    ensures
        !l.accepts(f),
{
}

/// Every record a well-formed listener holds is of a remote address.
pub proof fn lemma_records_not_local(l: Listener, i: int)
    requires
        l.wf(),
        0 <= i < l.records_spec().len(),
    ensures
        l.records_spec()[i].ip_address != l.source_ip_spec(),
{
}

} // verus!
