//! The order of offsets: by their number of seconds, west before east.

use crate::offset::UtcOffset;
use core::cmp::Ordering;
use vstd::prelude::*;
use vstd::std_specs::cmp::PartialOrdSpec;

verus! {

impl PartialOrd for UtcOffset {
    fn partial_cmp(&self, other: &UtcOffset) -> (order: Option<Ordering>) {
        let mine: i32 = self.as_seconds();
        let theirs: i32 = other.as_seconds();
        if mine < theirs {
            Some(Ordering::Less)
        } else if mine > theirs {
            Some(Ordering::Greater)
        } else {
            Some(Ordering::Equal)
        }
    }
}

impl vstd::std_specs::cmp::PartialOrdSpecImpl for UtcOffset {
    open spec fn obeys_partial_cmp_spec() -> bool {
        true
    }

    open spec fn partial_cmp_spec(&self, other: &UtcOffset) -> Option<Ordering> {
        if self@ < other@ {
            Some(Ordering::Less)
        } else if self@ > other@ {
            Some(Ordering::Greater)
        } else {
            Some(Ordering::Equal)
        }
    }
}

/// Offsets are totally ordered by their seconds: one offset comes before
/// another exactly when it has fewer seconds, and two offsets compare equal
/// exactly when they are the same offset.
pub proof fn lemma_ordered_by_seconds(a: UtcOffset, b: UtcOffset)
    ensures
        a.partial_cmp_spec(&b) == Some(Ordering::Less) <==> a@ < b@,
        a.partial_cmp_spec(&b) == Some(Ordering::Greater) <==> a@ > b@,
        a.partial_cmp_spec(&b) == Some(Ordering::Equal) <==> a == b,
        a.partial_cmp_spec(&b) is Some,
{
    UtcOffset::lemma_same_seconds(a, b);
}

} // verus!
