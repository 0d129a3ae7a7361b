//! A two-variant measurement value: a demonstration implementor of the
//! arbitrary ordering capability on an enum.
//!
//! Whether a space measurement is "less than" a time measurement is
//! meaningless, so [`Dimension`] deliberately does not implement the
//! comparison operators. Its [`ArbitraryOrd`](crate::ArbitraryOrd)
//! implementation orders all space values before all time values and each
//! variant by its numeric payload, purely so that wrapped dimensions can
//! serve as sorted-container keys.

use vstd::prelude::*;

use crate::ArbitraryOrd;
use crate::ArbitraryOrdLaws;
use core::cmp::Ordering;

verus! {

/// A measurement that is either a distance or a duration.
#[derive(Debug, Clone, Copy, Eq, Hash)]
pub enum Dimension {
    /// A distance, in some fixed spatial unit.
    Space(u32),
    /// A duration, in some fixed temporal unit.
    Time(u32),
}

impl PartialEq for Dimension {
    /// Dimensions are equal exactly when variant and payload agree.
    fn eq(&self, other: &Self) -> (r: bool) {
        match (self, other) {
            (Dimension::Space(a), Dimension::Space(b)) => *a == *b,
            (Dimension::Time(a), Dimension::Time(b)) => *a == *b,
            _ => false,
        }
    }
}

impl vstd::std_specs::cmp::PartialEqSpecImpl for Dimension {
    open spec fn obeys_eq_spec() -> bool {
        true
    }

    open spec fn eq_spec(&self, other: &Self) -> bool {
        *self == *other
    }
}

impl ArbitraryOrd for Dimension {
    /// Space values order before time values, then by numeric payload.
    open spec fn arbitrary_cmp_spec(&self, other: &Dimension) -> Ordering {
        match (self, other) {
            (Dimension::Space(a), Dimension::Space(b)) => if *a < *b {
                Ordering::Less
            } else if *a > *b {
                Ordering::Greater
            } else {
                Ordering::Equal
            },
            (Dimension::Space(_), Dimension::Time(_)) => Ordering::Less,
            (Dimension::Time(_), Dimension::Space(_)) => Ordering::Greater,
            (Dimension::Time(a), Dimension::Time(b)) => if *a < *b {
                Ordering::Less
            } else if *a > *b {
                Ordering::Greater
            } else {
                Ordering::Equal
            },
        }
    }

    fn arbitrary_cmp(&self, other: &Dimension) -> (r: Ordering) {
        match (self, other) {
            (Dimension::Space(a), Dimension::Space(b)) => if *a < *b {
                Ordering::Less
            } else if *a > *b {
                Ordering::Greater
            } else {
                Ordering::Equal
            },
            (Dimension::Space(_), Dimension::Time(_)) => Ordering::Less,
            (Dimension::Time(_), Dimension::Space(_)) => Ordering::Greater,
            (Dimension::Time(a), Dimension::Time(b)) => if *a < *b {
                Ordering::Less
            } else if *a > *b {
                Ordering::Greater
            } else {
                Ordering::Equal
            },
        }
    }
}

impl ArbitraryOrdLaws for Dimension {
    proof fn lemma_cmp_equal_iff(a: &Dimension, b: &Dimension) {
    }

    proof fn lemma_cmp_antisymmetric(a: &Dimension, b: &Dimension) {
    }

    proof fn lemma_cmp_transitive(a: &Dimension, b: &Dimension, c: &Dimension) {
    }
}

} // verus!
