//! A point in 2D space: a demonstration implementor of the arbitrary
//! ordering capability.
//!
//! A point has no well-defined natural order, so [`Point`] deliberately does
//! not implement the comparison operators. It implements
//! [`ArbitraryOrd`](crate::ArbitraryOrd) with a lexicographic order on
//! `(x, y)`, purely so that wrapped points can serve as sorted-container
//! keys.

use vstd::prelude::*;

use crate::ArbitraryOrd;
use crate::ArbitraryOrdLaws;
use core::cmp::Ordering;

verus! {

/// A point in 2D space.
///
/// Users should not be able to write `a < b` because no such order is well
/// defined; only the wrapped form is comparable.
#[derive(Debug, Clone, Copy, Eq, Hash)]
pub struct Point {
    /// Horizontal coordinate.
    pub x: u32,
    /// Vertical coordinate.
    pub y: u32,
}

impl Point {
    /// Creates a point from its two coordinates.
    pub fn new(x: u32, y: u32) -> (r: Self)
        ensures
            r.x == x,
            r.y == y,
    {
        Point { x, y }
    }
}

impl PartialEq for Point {
    /// Points are equal exactly when both coordinates agree.
    fn eq(&self, other: &Self) -> (r: bool) {
        self.x == other.x && self.y == other.y
    }
}

impl vstd::std_specs::cmp::PartialEqSpecImpl for Point {
    open spec fn obeys_eq_spec() -> bool {
        true
    }

    open spec fn eq_spec(&self, other: &Self) -> bool {
        self.x == other.x && self.y == other.y
    }
}

impl ArbitraryOrd for Point {
    /// Lexicographic order on `(x, y)`.
    open spec fn arbitrary_cmp_spec(&self, other: &Point) -> Ordering {
        if self.x < other.x {
            Ordering::Less
        } else if self.x > other.x {
            Ordering::Greater
        } else if self.y < other.y {
            Ordering::Less
        } else if self.y > other.y {
            Ordering::Greater
        } else {
            Ordering::Equal
        }
    }

    fn arbitrary_cmp(&self, other: &Point) -> (r: Ordering) {
        if self.x < other.x {
            Ordering::Less
        } else if self.x > other.x {
            Ordering::Greater
        } else if self.y < other.y {
            Ordering::Less
        } else if self.y > other.y {
            Ordering::Greater
        } else {
            Ordering::Equal
        }
    }
}

impl ArbitraryOrdLaws for Point {
    proof fn lemma_cmp_equal_iff(a: &Point, b: &Point) {
    }

    proof fn lemma_cmp_antisymmetric(a: &Point, b: &Point) {
    }

    proof fn lemma_cmp_transitive(a: &Point, b: &Point, c: &Point) {
    }
}

} // verus!
