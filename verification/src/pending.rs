//! The pending session table: at most one outstanding inbound connection
//! attempt per peer identity, each consumed at most once.
//!
//! An entry maps the requesting identity to the opaque accept/reject
//! capability the transport supplied for that attempt. Recording a new
//! attempt for an identity supersedes the old entry; resolving (by accept or
//! reject) removes the entry and hands the capability out exactly once, and
//! resolving an identity with no entry is silently a no-op.

use std::collections::HashMap;
use vstd::prelude::*;

verus! {

broadcast use vstd::std_specs::hash::group_hash_axioms;

/// Maps each identity with an unresolved inbound connection attempt to the
/// capability that accepts or rejects it.
pub struct PendingTable {
    entries: HashMap<u64, u64>,
}

impl View for PendingTable {
    type V = Map<u64, u64>;

    closed spec fn view(&self) -> Map<u64, u64> {
        self.entries@
    }
}

impl PendingTable {
    /// A table with no pending attempts.
    pub fn new() -> (t: Self)
        ensures
            t@ == Map::<u64, u64>::empty(),
    {
        PendingTable { entries: HashMap::new() }
    }

    /// Records the capability for an inbound attempt from `identity`; a new
    /// attempt for the same identity supersedes the earlier entry.
    pub fn record(&mut self, identity: u64, capability: u64)
        ensures
            final(self)@ == old(self)@.insert(identity, capability),
    {
        self.entries.insert(identity, capability);
    }

    /// Removes and returns the capability recorded for `identity`: the
    /// consuming step of an accept or reject. Returns nothing, and changes
    /// nothing, when no attempt is pending for `identity`.
    pub fn resolve(&mut self, identity: u64) -> (r: Option<u64>)
        ensures
            final(self)@ == old(self)@.remove(identity),
            r == (if old(self)@.contains_key(identity) {
                Some(old(self)@[identity])
            } else {
                None::<u64>
            }),
    {
        self.entries.remove(&identity)
    }

    /// Drops every pending attempt; their capabilities become unreachable.
    pub fn clear(&mut self)
        ensures
            final(self)@ == Map::<u64, u64>::empty(),
    {
        self.entries.clear();
    }

    /// How many attempts are pending.
    pub fn len(&self) -> (n: usize)
        ensures
            n == self@.len(),
    {
        self.entries.len()
    }
}

} // verus!
