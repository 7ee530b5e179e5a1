//! Choosing the interface a scan runs on, from a snapshot of the host's
//! interfaces.
use vstd::prelude::*;

verus! {

/// One network interface as the host reported it.
#[derive(Debug)]
pub struct InterfaceEntry {
    pub name: String,
    pub mac: Option<[u8; 6]>,
    pub index: u32,
}

/// Why no interface could be used.
#[derive(Clone, Copy, Debug, PartialEq, Eq)]
pub enum ResolveError {
    NotFound,
    /// The interface exists but has no hardware address to send ARP from.
    MissingHardwareAddress,
}

/// The interface a scan will use: its place in the snapshot and its address.
#[derive(Clone, Copy, Debug, PartialEq, Eq)]
pub struct ResolvedInterface {
    pub position: usize,
    pub mac: [u8; 6],
}

/// Whether `i` is the first entry of `list` named `name`.
pub open spec fn first_named(list: Seq<InterfaceEntry>, name: Seq<char>, i: int) -> bool {
    0 <= i < list.len() && list[i].name@ == name
        && forall|j: int| 0 <= j < i ==> list[j].name@ != name
}

/// Finds the first interface named `name` and its hardware address.
pub fn resolve_interface(list: &Vec<InterfaceEntry>, name: &String) -> (r: Result<ResolvedInterface, ResolveError>)
    ensures
        match r {
            Ok(m) => first_named(list@, name@, m.position as int)
                && list@[m.position as int].mac == Some(m.mac),
            Err(ResolveError::NotFound) => forall|j: int| 0 <= j < list@.len() ==> list@[j].name@ != name@,
            Err(ResolveError::MissingHardwareAddress) => exists|i: int|
                first_named(list@, name@, i) && list@[i].mac.is_none(),
        },
{
    let mut i: usize = 0;
    while i < list.len()
        invariant
            0 <= i <= list@.len(),
            forall|j: int| 0 <= j < i ==> list@[j].name@ != name@,
        decreases list@.len() - i,
    {
        let entry = &list[i];
        if entry.name == *name {
            assert(first_named(list@, name@, i as int));
            return match entry.mac {
                Some(mac) => Ok(ResolvedInterface { position: i, mac }),
                None => Err(ResolveError::MissingHardwareAddress),
            };
        }
        i = i + 1;
    }
    Err(ResolveError::NotFound)
}

/// The names of the interfaces, in the order given.
pub fn interface_names(list: &Vec<InterfaceEntry>) -> (r: Vec<String>)
    ensures
        r@.len() == list@.len(),
        forall|i: int| 0 <= i < list@.len() ==> r@[i]@ == list@[i].name@,
{
    let mut out: Vec<String> = Vec::new();
    let mut i: usize = 0;
    while i < list.len()
        invariant
            0 <= i <= list@.len(),
            out@.len() == i,
            forall|k: int| 0 <= k < i ==> out@[k]@ == list@[k].name@,
        decreases list@.len() - i,
    {
        out.push(list[i].name.clone());
        i = i + 1;
    }
    out
}

} // verus!
