//! The order of generic mana costs: by the amount of mana that they stand
//! for, with a variable amount counted as nothing and an infinite amount
//! above every other.

use std::cmp::Ordering;
use vstd::prelude::*;
use vstd::std_specs::cmp::PartialOrdSpecImpl;

use crate::magic::colour::GenericCost;

verus! {

/// The order of two doubled costs, where `None` stands for an infinite
/// cost.
pub open spec fn order_of(left: Option<int>, right: Option<int>) -> Ordering {
    match (left, right) {
        (None, None) => Ordering::Equal,
        (None, Some(_)) => Ordering::Greater,
        (Some(_), None) => Ordering::Less,
        (Some(a), Some(b)) => if a < b {
            Ordering::Less
        } else if a == b {
            Ordering::Equal
        } else {
            Ordering::Greater
        },
    }
}

impl PartialOrd for GenericCost {
    fn partial_cmp(&self, other: &Self) -> (order: Option<Ordering>) {
        let order = match (self.doubled_mana_cost(), other.doubled_mana_cost()) {
            (None, None) => Ordering::Equal,
            (None, Some(_)) => Ordering::Greater,
            (Some(_), None) => Ordering::Less,
            (Some(a), Some(b)) => if a < b {
                Ordering::Less
            } else if a == b {
                Ordering::Equal
            } else {
                Ordering::Greater
            },
        };
        Some(order)
    }
}

impl PartialOrdSpecImpl for GenericCost {
    open spec fn obeys_partial_cmp_spec() -> bool {
        true
    }

    open spec fn partial_cmp_spec(&self, other: &Self) -> Option<Ordering> {
        Some(order_of(self@.doubled_cost(), other@.doubled_cost()))
    }
}

} // verus!
