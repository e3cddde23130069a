//! Equality and order of decimals: by numeric value, whatever the scale.
//!
//! `1.0` and `1.00` are equal, and `0.5` comes before `0.75`.

use crate::decimal::{Decimal, OrderKey};
use core::cmp::Ordering;
use vstd::prelude::*;
use vstd::std_specs::cmp::{PartialEqSpecImpl, PartialOrdSpecImpl};

verus! {

/// Positions compare, whole part first, as the values that stand at them.
pub proof fn lemma_key_order(a: OrderKey, b: OrderKey)
    requires
        Decimal::canonical(a),
        Decimal::canonical(b),
    ensures
        a == b <==> Decimal::units_of_key(a) == Decimal::units_of_key(b),
        (a.0 < b.0 || (a.0 == b.0 && a.1 < b.1)) <==> Decimal::units_of_key(a)
            < Decimal::units_of_key(b),
{
}

impl PartialEq for Decimal {
    fn eq(&self, other: &Decimal) -> (r: bool) {
        let a: OrderKey = self.key();
        let b: OrderKey = other.key();
        proof {
            lemma_key_order(a, b);
        }
        a.0 == b.0 && a.1 == b.1
    }
}

impl PartialEqSpecImpl for Decimal {
    open spec fn obeys_eq_spec() -> bool {
        true
    }

    open spec fn eq_spec(&self, other: &Decimal) -> bool {
        self@ == other@
    }
}

impl PartialOrd for Decimal {
    fn partial_cmp(&self, other: &Decimal) -> (r: Option<Ordering>) {
        let a: OrderKey = self.key();
        let b: OrderKey = other.key();
        proof {
            lemma_key_order(a, b);
        }
        if a.0 < b.0 || (a.0 == b.0 && a.1 < b.1) {
            Some(Ordering::Less)
        } else if a.0 == b.0 && a.1 == b.1 {
            Some(Ordering::Equal)
        } else {
            Some(Ordering::Greater)
        }
    }
}

impl PartialOrdSpecImpl for Decimal {
    open spec fn obeys_partial_cmp_spec() -> bool {
        true
    }

    open spec fn partial_cmp_spec(&self, other: &Decimal) -> Option<Ordering> {
        if self@ < other@ {
            Some(Ordering::Less)
        } else if self@ == other@ {
            Some(Ordering::Equal)
        } else {
            Some(Ordering::Greater)
        }
    }
}

} // verus!
