//! Round identifiers for ballot-leader-election driven Paxos.

use vstd::prelude::*;

verus! {

use core::cmp::Ordering;
use crate::util::NodeId;

/// Totally ordered round identifier, compared lexicographically by
/// `(n, pid)`. `Ballot { n: 0, pid: 0 }` is the bottom element.
#[derive(Clone, Copy, PartialEq, Eq, Structural, Debug, Hash)]
pub struct Ballot {
    /// Round number, supplied by the ballot-leader-election module.
    pub n: u32,
    /// Process id of the round's owner, breaking ties between equal `n`.
    pub pid: NodeId,
}

impl Ballot {
    /// Strict lexicographic order on `(n, pid)`.
    pub open spec fn lt_spec(self, other: Ballot) -> bool {
        self.n < other.n || (self.n == other.n && self.pid < other.pid)
    }

    /// Reflexive closure of `lt_spec`.
    pub open spec fn le_spec(self, other: Ballot) -> bool {
        self.lt_spec(other) || self == other
    }

    /// Creates a [`Ballot`].
    pub fn with(n: u32, pid: NodeId) -> (r: Ballot)
        ensures
            r == (Ballot { n, pid }),
    {
        Ballot { n, pid }
    }
}

impl PartialOrd for Ballot {
    fn partial_cmp(&self, other: &Ballot) -> (r: Option<Ordering>) {
        if self.n < other.n {
            Some(Ordering::Less)
        } else if self.n > other.n {
            Some(Ordering::Greater)
        } else if self.pid < other.pid {
            Some(Ordering::Less)
        } else if self.pid > other.pid {
            Some(Ordering::Greater)
        } else {
            Some(Ordering::Equal)
        }
    }
}

impl vstd::std_specs::cmp::PartialOrdSpecImpl for Ballot {
    open spec fn obeys_partial_cmp_spec() -> bool {
        true
    }

    open spec fn partial_cmp_spec(&self, other: &Ballot) -> Option<Ordering> {
        if self.lt_spec(*other) {
            Some(Ordering::Less)
        } else if other.lt_spec(*self) {
            Some(Ordering::Greater)
        } else {
            Some(Ordering::Equal)
        }
    }
}

impl Default for Ballot {
    /// The bottom ballot: no round has been seen yet.
    fn default() -> (r: Ballot)
        ensures
            r == (Ballot { n: 0u32, pid: 0u64 }),
    {
        Ballot { n: 0, pid: 0 }
    }
}

/// The lexicographic order on ballots is total: of two distinct ballots one
/// is strictly below the other, and `lt_spec` is transitive.
pub proof fn lemma_ballot_order_total(a: Ballot, b: Ballot, c: Ballot)
    ensures
        a.lt_spec(b) || b.lt_spec(a) || a == b,
        !(a.lt_spec(b) && b.lt_spec(a)),
        a.lt_spec(b) && b.lt_spec(c) ==> a.lt_spec(c),
{
}

} // verus!
