//! Plain values exchanged with the dependency graph.

use vstd::prelude::*;

verus! {

/// A stable hash of a query result: two 64-bit halves.
#[derive(Clone, Copy, Debug, PartialEq, Eq, Structural, Hash)]
pub struct Fingerprint(pub u64, pub u64);

impl Fingerprint {
    /// The fingerprint of a result that is never hashed.
    pub open spec fn zero() -> Fingerprint {
        Fingerprint(0, 0)
    }

    /// Builds a fingerprint from its two halves.
    pub fn new(first: u64, second: u64) -> (f: Fingerprint)
        ensures
            f == Fingerprint(first, second),
    {
        Fingerprint(first, second)
    }

    /// The two halves of the fingerprint.
    pub fn as_value(&self) -> (halves: (u64, u64))
        ensures
            halves == (self.0, self.1),
    {
        (self.0, self.1)
    }
}

/// The fingerprint of a result that is never hashed.
pub fn zero_fingerprint() -> (f: Fingerprint)
    ensures
        f == Fingerprint::zero(),
{
    Fingerprint(0, 0)
}

/// The provenance stamp of one executed query in the current session.
#[derive(Clone, Copy, Debug, PartialEq, Eq, Structural, Hash)]
pub struct DepNodeIndex(pub u32);

/// The stamp carried by a value that was stored without entering a cache.
pub open spec fn invalid_index() -> DepNodeIndex {
    DepNodeIndex(0xFFFF_FF00)
}

/// The stamp carried by a value that was stored without entering a cache.
pub fn invalid_dep_node_index() -> (i: DepNodeIndex)
    ensures
        i == invalid_index(),
{
    DepNodeIndex(0xFFFF_FF00)
}

/// The position of a node in the dependency graph of the previous session.
#[derive(Clone, Copy, Debug, PartialEq, Eq, Structural, Hash)]
pub struct SerializedDepNodeIndex(pub u32);

/// The identity of one query instance across sessions: the kind of the query
/// and a stable hash of its key.
#[derive(Clone, Copy, Debug, PartialEq, Eq, Structural, Hash)]
pub struct DepNode {
    pub kind: u16,
    pub hash: Fingerprint,
}

} // verus!
