//! The order of match types: by rising confidence, which is the order of
//! their numbers on the bus.
use vstd::prelude::*;
use vstd::std_specs::cmp::PartialOrdSpecImpl;
use std::cmp::Ordering;
use crate::model::MatchType;

verus! {

impl PartialOrd for MatchType {
    fn partial_cmp(&self, other: &MatchType) -> (r: Option<Ordering>) {
        let a = self.wire_tag();
        let b = other.wire_tag();
        if a < b {
            Some(Ordering::Less)
        } else if a == b {
            Some(Ordering::Equal)
        } else {
            Some(Ordering::Greater)
        }
    }
}

impl PartialOrdSpecImpl for MatchType {
    open spec fn obeys_partial_cmp_spec() -> bool {
        true
    }

    open spec fn partial_cmp_spec(&self, other: &MatchType) -> Option<Ordering> {
        if self.tag() < other.tag() {
            Some(Ordering::Less)
        } else if self.tag() == other.tag() {
            Some(Ordering::Equal)
        } else {
            Some(Ordering::Greater)
        }
    }
}

} // verus!
