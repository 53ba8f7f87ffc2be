//! The order in which results are ranked.

use core::cmp::Ordering;
use vstd::prelude::*;
use vstd::std_specs::cmp::PartialOrdSpecImpl;
use crate::activity::BotFinalStatus;

verus! {

impl PartialOrd for BotFinalStatus {
    fn partial_cmp(&self, other: &Self) -> (r: Option<Ordering>) {
        if self.ranks_before(other) {
            Some(Ordering::Less)
        } else if other.ranks_before(self) {
            Some(Ordering::Greater)
        } else {
            Some(Ordering::Equal)
        }
    }
}

impl PartialOrdSpecImpl for BotFinalStatus {
    open spec fn obeys_partial_cmp_spec() -> bool {
        true
    }

    open spec fn partial_cmp_spec(&self, other: &Self) -> Option<Ordering> {
        if self.before(other) {
            Some(Ordering::Less)
        } else if other.before(self) {
            Some(Ordering::Greater)
        } else {
            Some(Ordering::Equal)
        }
    }
}

} // verus!
