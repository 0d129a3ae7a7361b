//! A wrapper for types that can implement a total order but for semantic
//! reasons should not expose one through the ordinary comparison operators.
//!
//! A type author implements [`ArbitraryOrd`] to supply a comparison that is
//! well defined programmatically but deliberately kept off the type itself.
//! Wrapping a value in [`Ordered`] then grants it the standard comparison
//! operators, which delegate to that arbitrary comparison; everything else
//! passes through to the inner value unchanged.
//!
//! An implementation whose comparison also satisfies the laws of a strict
//! total order consistent with equality can additionally implement
//! [`ArbitraryOrdLaws`], which makes the order-theoretic lemmas about
//! [`Ordered`] available for it.

use vstd::prelude::*;
use vstd::std_specs::cmp::PartialEqSpec;
use vstd::std_specs::cmp::PartialOrdSpec;

use core::cmp::Ordering;

pub mod dimension;
pub mod point;

verus! {

/// Trait for types that perform an arbitrary ordering.
///
/// More specifically, this trait is for types that perform either a partial
/// or total order but semantically it is nonsensical.
///
/// The comparison is exposed both as a specification function, which defines
/// the relation mathematically, and as an executable function that is proved
/// to return exactly what the specification says.
pub trait ArbitraryOrd<Rhs = Self>: PartialEq<Rhs> {
    /// The comparison relation, as a mathematical function of the two values.
    spec fn arbitrary_cmp_spec(&self, other: &Rhs) -> Ordering;

    /// Implements a meaningless, arbitrary ordering.
    fn arbitrary_cmp(&self, other: &Rhs) -> (r: Ordering)
        ensures
            r == self.arbitrary_cmp_spec(other),
    ;
}

/// The laws a well-behaved arbitrary ordering must obey: the relation is a
/// strict total order that is consistent with equality.
///
/// Implementing this trait is how a type author discharges the contract
/// obligation that comes with using the ordering to back a sorted container:
/// an ordering that breaks these laws can corrupt such a container. Totality
/// itself needs no law because the comparison always returns one of the three
/// ordering outcomes.
pub trait ArbitraryOrdLaws: ArbitraryOrd + Sized {
    /// The comparison reports `Equal` exactly on equal values.
    proof fn lemma_cmp_equal_iff(a: &Self, b: &Self)
        ensures
            (a.arbitrary_cmp_spec(b) == Ordering::Equal) <==> (a == b),
    ;

    /// The comparison is antisymmetric: the two directions always disagree.
    proof fn lemma_cmp_antisymmetric(a: &Self, b: &Self)
        ensures
            (a.arbitrary_cmp_spec(b) == Ordering::Less) <==> (b.arbitrary_cmp_spec(
                a,
            ) == Ordering::Greater),
    ;

    /// The comparison is transitive.
    proof fn lemma_cmp_transitive(a: &Self, b: &Self, c: &Self)
        requires
            a.arbitrary_cmp_spec(b) == Ordering::Less,
            b.arbitrary_cmp_spec(c) == Ordering::Less,
        ensures
            a.arbitrary_cmp_spec(c) == Ordering::Less,
    ;
}

/// A wrapper type that implements `PartialOrd` and a total comparison.
#[derive(Debug, Clone, Copy, Eq, Hash)]
pub struct Ordered<T>(pub T);

impl<T> Ordered<T> {
    /// Creates a new wrapped ordered type.
    ///
    /// The inner type is public so this function is never explicitly needed.
    pub fn new(inner: T) -> (r: Self)
        ensures
            r.0 == inner,
    {
        Ordered(inner)
    }

    /// Returns a reference to the inner object.
    pub fn as_inner(&self) -> (r: &T)
        ensures
            r == &self.0,
    {
        &self.0
    }

    /// Returns the inner object.
    pub fn into_inner(self) -> (r: T)
        ensures
            r == self.0,
    {
        self.0
    }
}

impl<T: ArbitraryOrd> Ordered<T> {
    /// What a comparison of two wrapped values returns: exactly the inner
    /// type's arbitrary comparison of the inner values.
    pub open spec fn cmp_spec(&self, other: &Self) -> Ordering {
        self.0.arbitrary_cmp_spec(&other.0)
    }
}

impl<T: ArbitraryOrd + Eq> Ordered<T> {
    /// Total comparison of two wrapped values; delegates to the inner type's
    /// arbitrary comparison.
    pub fn cmp(&self, other: &Self) -> (r: Ordering)
        ensures
            r == self.cmp_spec(other),
    {
        self.0.arbitrary_cmp(&other.0)
    }
}

impl<T> Ordered<T> {
    /// Wraps a borrowed value so that it can take part in comparisons without
    /// being copied or moved.
    ///
    /// The result borrows the same value; comparisons on it delegate to the
    /// borrowed value's arbitrary comparison.
    pub fn from_ref(value: &T) -> (r: Ordered<&T>)
        ensures
            r.0 == value,
    {
        Ordered(value)
    }
}

impl<'a, T: ArbitraryOrd> ArbitraryOrd for &'a T {
    open spec fn arbitrary_cmp_spec(&self, other: &&'a T) -> Ordering {
        T::arbitrary_cmp_spec(*self, *other)
    }

    fn arbitrary_cmp(&self, other: &&'a T) -> (r: Ordering) {
        T::arbitrary_cmp(*self, *other)
    }
}

impl<'a, T: ArbitraryOrdLaws> ArbitraryOrdLaws for &'a T {
    proof fn lemma_cmp_equal_iff(a: &&'a T, b: &&'a T) {
        T::lemma_cmp_equal_iff(*a, *b);
    }

    proof fn lemma_cmp_antisymmetric(a: &&'a T, b: &&'a T) {
        T::lemma_cmp_antisymmetric(*a, *b);
    }

    proof fn lemma_cmp_transitive(a: &&'a T, b: &&'a T, c: &&'a T) {
        T::lemma_cmp_transitive(*a, *b, *c);
    }
}

impl<T: ArbitraryOrd> PartialOrd for Ordered<T> {
    /// Partial comparison always succeeds with the inner type's arbitrary
    /// comparison, so the partial and total orders agree by construction.
    fn partial_cmp(&self, other: &Self) -> (r: Option<Ordering>) {
        Some(self.0.arbitrary_cmp(&other.0))
    }
}

impl<T: ArbitraryOrd> vstd::std_specs::cmp::PartialOrdSpecImpl for Ordered<T> {
    open spec fn obeys_partial_cmp_spec() -> bool {
        true
    }

    open spec fn partial_cmp_spec(&self, other: &Self) -> Option<Ordering> {
        Some(self.cmp_spec(other))
    }
}

impl<T> From<T> for Ordered<T> {
    /// Conversion from the bare value; always succeeds, no validation.
    fn from(inner: T) -> (r: Self) {
        Ordered(inner)
    }
}

impl<T> vstd::std_specs::convert::FromSpecImpl<T> for Ordered<T> {
    open spec fn obeys_from_spec() -> bool {
        true
    }

    open spec fn from_spec(v: T) -> Ordered<T> {
        Ordered(v)
    }
}

impl<T> core::ops::Deref for Ordered<T> {
    type Target = T;

    /// Transparent access to the inner value.
    fn deref(&self) -> (r: &T)
        ensures
            r == &self.0,
    {
        &self.0
    }
}

impl<T> core::ops::DerefMut for Ordered<T> {
    /// Transparent mutable access to the inner value; mutation through it
    /// does not invalidate any wrapper invariant.
    fn deref_mut(&mut self) -> (r: &mut T)
        ensures
            *r == old(self).0,
            final(self).0 == *final(r),
    {
        &mut self.0
    }
}

impl<T> core::borrow::Borrow<T> for Ordered<T> {
    /// Transparent borrow of the inner value.
    fn borrow(&self) -> &T {
        &self.0
    }
}

impl<T> core::borrow::BorrowMut<T> for Ordered<T> {
    /// Transparent mutable borrow of the inner value.
    fn borrow_mut(&mut self) -> &mut T {
        &mut self.0
    }
}

impl<T> AsRef<T> for Ordered<T> {
    /// Transparent reference to the inner value.
    fn as_ref(&self) -> (r: &T)
        ensures
            r == &self.0,
    {
        &self.0
    }
}

impl<T> AsMut<T> for Ordered<T> {
    /// Transparent mutable reference to the inner value.
    fn as_mut(&mut self) -> (r: &mut T)
        ensures
            *r == old(self).0,
            final(self).0 == *final(r),
    {
        &mut self.0
    }
}

impl<T: PartialEq> PartialEq for Ordered<T> {
    /// Equality delegates directly to the inner value's equality.
    fn eq(&self, other: &Self) -> (r: bool) {
        self.0 == other.0
    }
}

impl<T: PartialEq> vstd::std_specs::cmp::PartialEqSpecImpl for Ordered<T> {
    open spec fn obeys_eq_spec() -> bool {
        <T as vstd::std_specs::cmp::PartialEqSpec>::obeys_eq_spec()
    }

    open spec fn eq_spec(&self, other: &Self) -> bool {
        self.0.eq_spec(&other.0)
    }
}

/// Reflexivity: comparing a wrapped value with itself reports `Equal`.
pub proof fn lemma_ordered_cmp_reflexive<T: ArbitraryOrdLaws>(a: &Ordered<T>)
    ensures
        a.cmp_spec(a) == Ordering::Equal,
{
    T::lemma_cmp_equal_iff(&a.0, &a.0);
}

/// Antisymmetry: if one wrapped value compares below another, the reverse
/// comparison reports `Greater`, never `Less`.
pub proof fn lemma_ordered_cmp_antisymmetric<T: ArbitraryOrdLaws>(a: &Ordered<T>, b: &Ordered<T>)
    ensures
        (a.cmp_spec(b) == Ordering::Less) <==> (b.cmp_spec(a) == Ordering::Greater),
        (a.cmp_spec(b) == Ordering::Less) ==> (b.cmp_spec(a) != Ordering::Less),
{
    T::lemma_cmp_antisymmetric(&a.0, &b.0);
}

/// Transitivity: the order on wrapped values composes.
pub proof fn lemma_ordered_cmp_transitive<T: ArbitraryOrdLaws>(
    a: &Ordered<T>,
    b: &Ordered<T>,
    c: &Ordered<T>,
)
    requires
        a.cmp_spec(b) == Ordering::Less,
        b.cmp_spec(c) == Ordering::Less,
    ensures
        a.cmp_spec(c) == Ordering::Less,
{
    T::lemma_cmp_transitive(&a.0, &b.0, &c.0);
}

/// Totality: between two wrapped values exactly one of `Less`, equality and
/// `Greater` holds.
pub proof fn lemma_ordered_cmp_total<T: ArbitraryOrdLaws>(a: &Ordered<T>, b: &Ordered<T>)
    ensures
        a.cmp_spec(b) == Ordering::Less || a == b || a.cmp_spec(b) == Ordering::Greater,
        (a.cmp_spec(b) == Ordering::Less) ==> !(a == b) && a.cmp_spec(b) != Ordering::Greater,
        (a == b) ==> a.cmp_spec(b) != Ordering::Less && a.cmp_spec(b) != Ordering::Greater,
        (a.cmp_spec(b) == Ordering::Greater) ==> !(a == b) && a.cmp_spec(b) != Ordering::Less,
{
    T::lemma_cmp_equal_iff(&a.0, &b.0);
}

/// Partial/total consistency: the partial comparison of two wrapped values
/// always succeeds with exactly the total comparison's result.
pub proof fn lemma_ordered_partial_cmp_consistent<T: ArbitraryOrd>(a: &Ordered<T>, b: &Ordered<T>)
    ensures
        a.partial_cmp_spec(b) == Some(a.cmp_spec(b)),
        <Ordered<T> as PartialOrdSpec>::obeys_partial_cmp_spec(),
{
}

/// Reference-construction equivalence: a wrapped borrowed bare value compares
/// as `Equal` against a borrow of a wrapped owned copy of the same value.
pub proof fn lemma_from_ref_equivalent<T: ArbitraryOrdLaws>(value: &T, copy: &T)
    requires
        *value == *copy,
    ensures
        (Ordered(value)).cmp_spec(&(Ordered(copy))) == Ordering::Equal,
{
    <&T as ArbitraryOrdLaws>::lemma_cmp_equal_iff(&value, &copy);
}

} // verus!
