//! Counters for onion-service descriptor revisions.

use vstd::prelude::*;

verus! {

/// Counts which revision of an onion-service descriptor is which,
/// within a given time period.
///
/// There can be gaps in this numbering.  A descriptor with a
/// higher-valued revision counter supersedes one with a lower revision
/// counter.
#[derive(Copy, Clone, Debug, Ord, PartialOrd, Eq, PartialEq, Structural)]
pub struct RevisionCounter(pub u64);

impl From<u64> for RevisionCounter {
    fn from(v: u64) -> (r: Self) {
        RevisionCounter(v)
    }
}

impl vstd::std_specs::convert::FromSpecImpl<u64> for RevisionCounter {
    open spec fn obeys_from_spec() -> bool {
        true
    }

    open spec fn from_spec(v: u64) -> Self {
        RevisionCounter(v)
    }
}

impl From<RevisionCounter> for u64 {
    fn from(v: RevisionCounter) -> (r: u64) {
        v.0
    }
}

impl vstd::std_specs::convert::FromSpecImpl<RevisionCounter> for u64 {
    open spec fn obeys_from_spec() -> bool {
        true
    }

    open spec fn from_spec(v: RevisionCounter) -> Self {
        v.0
    }
}

} // verus!
