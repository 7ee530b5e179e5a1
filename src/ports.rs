//! Port probing: the candidate ports, and the scheduler that keeps at most a
//! fixed number of connection attempts in flight.
//!
//! The driver performs each attempt (a TCP connect under a timeout) and
//! reports its outcome; a refusal and a timeout are both reported as closed.
use vstd::prelude::*;

verus! {

/// The well-known service ports probed when only common ports are asked for.
pub open spec fn common_ports_spec() -> Seq<u16> {
    seq![21u16, 22, 23, 25, 53, 80, 110, 111, 135, 139, 143, 443, 445, 993, 995, 1723, 3306,
        3389, 5900, 8080]
}

/// The candidate ports: the common ones, or every port from 1 to 65535.
pub open spec fn candidate_ports_spec(common_only: bool) -> Seq<u16> {
    if common_only {
        common_ports_spec()
    } else {
        Seq::new(65535, |i: int| (i + 1) as u16)
    }
}

/// The table of common ports, in increasing order.
pub fn common_ports() -> (r: Vec<u16>)
    ensures
        r@ == common_ports_spec(),
{
    let r: Vec<u16> = vec![21u16, 22, 23, 25, 53, 80, 110, 111, 135, 139, 143, 443, 445, 993,
        995, 1723, 3306, 3389, 5900, 8080];
    assert(r@ =~= common_ports_spec());
    r
}

/// The ports to probe: the common table, or the full range 1 to 65535.
pub fn candidate_ports(common_only: bool) -> (r: Vec<u16>)
    ensures
        r@ == candidate_ports_spec(common_only),
{
    if common_only {
        return common_ports();
    }
    let mut r: Vec<u16> = Vec::new();
    let mut p: u32 = 1;
    while p <= 65535
        invariant
            1 <= p <= 65536,
            r@.len() == p - 1,
            forall|i: int| 0 <= i < r@.len() ==> r@[i] == (i + 1) as u16,
        decreases 65536 - p,
    {
        r.push(p as u16);
        p = p + 1;
    }
    assert(r@ =~= candidate_ports_spec(false));
    r
}

/// Bounded fan-out of connection attempts over a list of candidate ports.
pub struct PortProbe {
    candidates: Vec<u16>,
    limit: usize,
    next: usize,
    in_flight: Vec<u16>,
    open: Vec<u16>,
    cancelled: bool,
    /// For each attempt in flight, the position of its candidate.
    in_flight_at: Ghost<Seq<int>>,
    /// For each candidate position already reported, whether it was open.
    reported: Ghost<Map<int, bool>>,
}

impl PortProbe {
    pub closed spec fn candidates_spec(self) -> Seq<u16> {
        self.candidates@
    }

    pub closed spec fn limit_spec(self) -> usize {
        self.limit
    }

    /// How many candidates have been handed out so far.
    pub closed spec fn launched_spec(self) -> usize {
        self.next
    }

    /// The ports handed out and not yet reported.
    pub closed spec fn in_flight_spec(self) -> Seq<u16> {
        self.in_flight@
    }

    /// Whether scheduling further attempts was stopped.
    pub closed spec fn cancelled_spec(self) -> bool {
        self.cancelled
    }

    /// The candidate position of each port in flight.
    pub closed spec fn in_flight_at_spec(self) -> Seq<int> {
        self.in_flight_at@
    }

    /// The outcome reported for each candidate position reported so far.
    pub closed spec fn reported_spec(self) -> Map<int, bool> {
        self.reported@
    }

    /// The ports reported open, in order of report.
    pub closed spec fn open_spec(self) -> Seq<u16> {
        self.open@
    }

    /// Whether some candidate equal to `port` was reported open.
    pub open spec fn reported_open(self, port: u16) -> bool {
        exists|j: int|
            #![trigger self.reported_spec()[j], self.candidates_spec()[j]]
            self.reported_spec().contains_key(j) && self.reported_spec()[j]
                && self.candidates_spec()[j] == port
    }

    /// Never more than `limit` attempts are outstanding; each candidate
    /// handed out is either in flight, once, or reported; the open ports are
    /// exactly those reported open.
    pub open spec fn wf(self) -> bool {
        &&& self.limit_spec() >= 1
        &&& self.in_flight_spec().len() <= self.limit_spec()
        &&& self.launched_spec() <= self.candidates_spec().len()
        &&& self.in_flight_at_spec().len() == self.in_flight_spec().len()
        &&& forall|k: int| 0 <= k < self.in_flight_at_spec().len() ==> {
            &&& 0 <= #[trigger] self.in_flight_at_spec()[k] < self.launched_spec()
            &&& self.candidates_spec()[self.in_flight_at_spec()[k]] == self.in_flight_spec()[k]
            &&& !self.reported_spec().contains_key(self.in_flight_at_spec()[k])
        }
        &&& forall|k1: int, k2: int| 0 <= k1 < k2 < self.in_flight_at_spec().len()
            ==> self.in_flight_at_spec()[k1] != self.in_flight_at_spec()[k2]
        &&& forall|j: int| #[trigger] self.reported_spec().contains_key(j)
            ==> 0 <= j < self.launched_spec()
        &&& forall|j: int| 0 <= j < self.launched_spec()
            ==> #[trigger] self.reported_spec().contains_key(j)
                || self.in_flight_at_spec().contains(j)
        &&& forall|p: u16| #[trigger] self.open_spec().contains(p) <==> self.reported_open(p)
    }

    /// Schedules `candidates`, at most `limit` at a time.
    pub fn new(candidates: Vec<u16>, limit: usize) -> (r: PortProbe)
        requires
            limit >= 1,
        ensures
            r.wf(),
            r.candidates_spec() == candidates@,
            r.limit_spec() == limit,
            r.launched_spec() == 0,
            r.in_flight_spec() == Seq::<u16>::empty(),
            r.reported_spec() == Map::<int, bool>::empty(),
            r.open_spec() == Seq::<u16>::empty(),
            !r.cancelled_spec(),
    {
        PortProbe {
            candidates,
            limit,
            next: 0,
            in_flight: Vec::new(),
            open: Vec::new(),
            cancelled: false,
            in_flight_at: Ghost(Seq::empty()),
            reported: Ghost(Map::empty()),
        }
    }

    /// The next port to attempt, where a slot is free and a candidate is
    /// left; `None` otherwise.
    pub fn launch(&mut self) -> (r: Option<u16>)
        requires
            old(self).wf(),
        ensures
            final(self).wf(),
            final(self).candidates_spec() == old(self).candidates_spec(),
            final(self).limit_spec() == old(self).limit_spec(),
            final(self).reported_spec() == old(self).reported_spec(),
            final(self).open_spec() == old(self).open_spec(),
            final(self).cancelled_spec() == old(self).cancelled_spec(),
            ({
                let can = !old(self).cancelled_spec()
                    && old(self).in_flight_spec().len() < old(self).limit_spec()
                    && old(self).launched_spec() < old(self).candidates_spec().len();
                let p = old(self).candidates_spec()[old(self).launched_spec() as int];
                &&& can ==> r == Some(p)
                    && final(self).launched_spec() == old(self).launched_spec() + 1
                    && final(self).in_flight_spec() == old(self).in_flight_spec().push(p)
                &&& !can ==> r.is_none()
                    && final(self).launched_spec() == old(self).launched_spec()
                    && final(self).in_flight_spec() == old(self).in_flight_spec()
            }),
    {
        if !self.cancelled && self.in_flight.len() < self.limit && self.next < self.candidates.len() {
            let p = self.candidates[self.next];
            let ghost pre = *self;
            let ghost j = self.next as int;
            proof {
                self.in_flight_at@ = pre.in_flight_at_spec().push(j);
            }
            self.next = self.next + 1;
            self.in_flight.push(p);
            assert forall|x: int| 0 <= x < self.launched_spec() implies
                #[trigger] self.reported_spec().contains_key(x)
                    || self.in_flight_at_spec().contains(x) by {
                if x == j {
                    assert(self.in_flight_at_spec()[pre.in_flight_at_spec().len() as int] == j);
                } else if !pre.reported_spec().contains_key(x) {
                    assert(pre.in_flight_at_spec().contains(x));
                    let w = choose|w: int|
                        0 <= w < pre.in_flight_at_spec().len() && pre.in_flight_at_spec()[w] == x;
                    assert(self.in_flight_at_spec()[w] == x);
                }
            }
            assert(self.reported_spec() == pre.reported_spec());
            assert(self.candidates_spec() == pre.candidates_spec());
            assert(self.open_spec() == pre.open_spec());
            assert(!pre.reported_spec().contains_key(j));
            assert forall|k: int| 0 <= k < self.in_flight_at_spec().len() implies {
                &&& 0 <= #[trigger] self.in_flight_at_spec()[k] < self.launched_spec()
                &&& self.candidates_spec()[self.in_flight_at_spec()[k]] == self.in_flight_spec()[k]
                &&& !self.reported_spec().contains_key(self.in_flight_at_spec()[k])
            } by {
                if k < pre.in_flight_at_spec().len() {
                    assert(self.in_flight_at_spec()[k] == pre.in_flight_at_spec()[k]);
                    assert(self.in_flight_spec()[k] == pre.in_flight_spec()[k]);
                }
            }
            assert forall|k1: int, k2: int| 0 <= k1 < k2 < self.in_flight_at_spec().len()
                implies self.in_flight_at_spec()[k1] != self.in_flight_at_spec()[k2] by {
                assert(self.in_flight_at_spec()[k1] == pre.in_flight_at_spec()[k1]);
                assert(0 <= pre.in_flight_at_spec()[k1] < pre.launched_spec());
            }
            assert forall|q: u16| #[trigger] self.open_spec().contains(q) <==> self.reported_open(q) by {
                assert(pre.open_spec().contains(q) <==> pre.reported_open(q));
                if pre.reported_open(q) {
                    let w = choose|w: int|
                        #![trigger pre.reported_spec()[w], pre.candidates_spec()[w]]
                        pre.reported_spec().contains_key(w) && pre.reported_spec()[w]
                            && pre.candidates_spec()[w] == q;
                    assert(self.reported_spec()[w] && self.candidates_spec()[w] == q);
                }
                if self.reported_open(q) {
                    let w = choose|w: int|
                        #![trigger self.reported_spec()[w], self.candidates_spec()[w]]
                        self.reported_spec().contains_key(w) && self.reported_spec()[w]
                            && self.candidates_spec()[w] == q;
                    assert(pre.reported_spec()[w] && pre.candidates_spec()[w] == q);
                }
            }
            Some(p)
        } else {
            None
        }
    }

    /// Records the outcome of the attempt on `port`. A report for a port not
    /// in flight is ignored and `false` is returned.
    pub fn finish(&mut self, port: u16, is_open: bool) -> (r: bool)
        requires
            old(self).wf(),
        ensures
            final(self).wf(),
            final(self).candidates_spec() == old(self).candidates_spec(),
            final(self).limit_spec() == old(self).limit_spec(),
            final(self).launched_spec() == old(self).launched_spec(),
            final(self).cancelled_spec() == old(self).cancelled_spec(),
            r == old(self).in_flight_spec().contains(port),
            r ==> exists|i: int|
                0 <= i < old(self).in_flight_spec().len()
                && old(self).in_flight_spec()[i] == port
                && final(self).in_flight_spec() == old(self).in_flight_spec().remove(i)
                && final(self).reported_spec() == old(self).reported_spec().insert(
                    old(self).in_flight_at_spec()[i],
                    is_open,
                ),
            r ==> final(self).open_spec() == (if is_open {
                old(self).open_spec().push(port)
            } else {
                old(self).open_spec()
            }),
            !r ==> final(self).in_flight_spec() == old(self).in_flight_spec()
                && final(self).reported_spec() == old(self).reported_spec()
                && final(self).open_spec() == old(self).open_spec(),
    {
        let mut i: usize = 0;
        while i < self.in_flight.len()
            invariant
                0 <= i <= self.in_flight@.len(),
                forall|k: int| 0 <= k < i ==> self.in_flight@[k] != port,
                old(self).wf(),
                *self == *old(self),
            decreases self.in_flight@.len() - i,
        {
            if self.in_flight[i] == port {
                let ghost pre = *self;
                let ghost at = pre.in_flight_at_spec();
                let ghost j = at[i as int];
                self.in_flight.remove(i);
                proof {
                    self.in_flight_at@ = at.remove(i as int);
                    self.reported@ = pre.reported_spec().insert(j, is_open);
                }
                if is_open {
                    self.open.push(port);
                }
                assert(pre.candidates_spec()[j] == port);
                assert(self.reported_spec() == pre.reported_spec().insert(j, is_open));
                assert forall|k: int| 0 <= k < self.in_flight_at_spec().len() implies {
                    &&& 0 <= #[trigger] self.in_flight_at_spec()[k] < self.launched_spec()
                    &&& self.candidates_spec()[self.in_flight_at_spec()[k]]
                        == self.in_flight_spec()[k]
                    &&& !self.reported_spec().contains_key(self.in_flight_at_spec()[k])
                } by {
                    let o = if k < i { k } else { k + 1 };
                    assert(self.in_flight_at_spec()[k] == at[o]);
                    assert(self.in_flight_spec()[k] == pre.in_flight_spec()[o]);
                    assert(at[o] != j);
                }
                assert forall|x: int| 0 <= x < self.launched_spec() implies
                    #[trigger] self.reported_spec().contains_key(x)
                        || self.in_flight_at_spec().contains(x) by {
                    if x != j && !pre.reported_spec().contains_key(x) {
                        assert(at.contains(x));
                        let w = choose|w: int| 0 <= w < at.len() && at[w] == x;
                        assert(w != i);
                        let o = if w < i { w } else { w - 1 };
                        assert(self.in_flight_at_spec()[o] == x);
                    }
                }
                let ghost n = pre.open_spec().len();
                if is_open {
                    assert(self.open_spec() == pre.open_spec().push(port));
                    assert(self.open_spec()[n as int] == port);
                } else {
                    assert(self.open_spec() == pre.open_spec());
                }
                assert forall|q: u16| #[trigger] self.open_spec().contains(q) implies self.reported_open(q) by {
                    let w = choose|w: int| 0 <= w < self.open_spec().len() && self.open_spec()[w] == q;
                    if w < n {
                        assert(pre.open_spec()[w] == q);
                        assert(pre.open_spec().contains(q));
                        assert(pre.reported_open(q));
                        let v = choose|v: int|
                            #![trigger pre.reported_spec()[v], pre.candidates_spec()[v]]
                            pre.reported_spec().contains_key(v) && pre.reported_spec()[v]
                                && pre.candidates_spec()[v] == q;
                        assert(v != j);
                        assert(self.reported_spec()[v] && self.candidates_spec()[v] == q);
                    } else {
                        assert(self.reported_spec()[j] && self.candidates_spec()[j] == q);
                    }
                }
                assert forall|q: u16| self.reported_open(q) implies #[trigger] self.open_spec().contains(q) by {
                    let w = choose|w: int|
                        #![trigger self.reported_spec()[w], self.candidates_spec()[w]]
                        self.reported_spec().contains_key(w) && self.reported_spec()[w]
                            && self.candidates_spec()[w] == q;
                    if w != j {
                        assert(pre.reported_spec()[w] && pre.candidates_spec()[w] == q);
                        assert(pre.reported_open(q));
                        assert(pre.open_spec().contains(q));
                        let v = choose|v: int| 0 <= v < n && pre.open_spec()[v] == q;
                        assert(self.open_spec()[v] == q);
                    } else {
                        assert(is_open && q == port);
                        assert(self.open_spec()[n as int] == q);
                    }
                }
                assert(self.in_flight_spec() == pre.in_flight_spec().remove(i as int));
                return true;
            }
            i = i + 1;
        }
        false
    }

    /// Stops scheduling: no further attempt is launched, and the probe is
    /// done once the attempts in flight are reported.
    pub fn cancel(&mut self)
        requires
            old(self).wf(),
        ensures
            final(self).wf(),
            final(self).cancelled_spec(),
            final(self).candidates_spec() == old(self).candidates_spec(),
            final(self).limit_spec() == old(self).limit_spec(),
            final(self).launched_spec() == old(self).launched_spec(),
            final(self).in_flight_spec() == old(self).in_flight_spec(),
            final(self).reported_spec() == old(self).reported_spec(),
            final(self).open_spec() == old(self).open_spec(),
    {
        let ghost pre = *self;
        self.cancelled = true;
        assert forall|q: u16| #[trigger] self.open_spec().contains(q) <==> self.reported_open(q) by {
            assert(pre.open_spec().contains(q) <==> pre.reported_open(q));
            if pre.reported_open(q) {
                let w = choose|w: int|
                    #![trigger pre.reported_spec()[w], pre.candidates_spec()[w]]
                    pre.reported_spec().contains_key(w) && pre.reported_spec()[w]
                        && pre.candidates_spec()[w] == q;
                assert(self.reported_spec()[w] && self.candidates_spec()[w] == q);
            }
            if self.reported_open(q) {
                let w = choose|w: int|
                    #![trigger self.reported_spec()[w], self.candidates_spec()[w]]
                    self.reported_spec().contains_key(w) && self.reported_spec()[w]
                        && self.candidates_spec()[w] == q;
                assert(pre.reported_spec()[w] && pre.candidates_spec()[w] == q);
            }
        }
    }

    /// Whether nothing is in flight and nothing is left to launch: every
    /// candidate was attempted, or scheduling was cancelled.
    pub fn is_complete(&self) -> (r: bool)
        ensures
            r == ((self.launched_spec() == self.candidates_spec().len() || self.cancelled_spec())
                && self.in_flight_spec().len() == 0),
    {
        (self.next == self.candidates.len() || self.cancelled) && self.in_flight.len() == 0
    }

    /// How many attempts are outstanding.
    pub fn in_flight_count(&self) -> (r: usize)
        ensures
            r == self.in_flight_spec().len(),
    {
        self.in_flight.len()
    }

    /// The ports reported open so far.
    pub fn open_ports(&self) -> (r: Vec<u16>)
        ensures
            r@ == self.open_spec(),
    {
        self.open.clone()
    }
}

/// Once a well-formed probe is complete, every candidate has been reported,
/// and the ports it returns as open are exactly the candidates reported open.
pub proof fn lemma_complete_probe_exact(p: PortProbe)
    requires
        p.wf(),
        p.launched_spec() == p.candidates_spec().len(),
        p.in_flight_spec().len() == 0,
    ensures
        forall|j: int| 0 <= j < p.candidates_spec().len() ==> #[trigger] p.reported_spec().contains_key(j),
        forall|q: u16| p.open_spec().contains(q) <==> p.reported_open(q),
{
    assert forall|j: int| 0 <= j < p.candidates_spec().len() implies #[trigger] p.reported_spec().contains_key(j) by {
        if !p.reported_spec().contains_key(j) {
            assert(p.in_flight_at_spec().contains(j));
        }
    }
}

/// However the attempts are reported, a well-formed scheduler never has more
/// than its limit in flight.
pub proof fn lemma_concurrency_bounded(p: PortProbe)
    requires
        p.wf(),
    ensures
        p.in_flight_spec().len() <= p.limit_spec(),
{
}

} // verus!
