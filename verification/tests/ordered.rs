use core::cmp::Ordering;
use std::boxed::Box;

use ordered::point::Point;
use ordered::ArbitraryOrd;
use ordered::Ordered;

fn assert_send<T: Send>() {}

fn assert_sync<T: Sync>() {}

// If this struct builds then `ArbitraryOrd` is object safe.
#[allow(dead_code)]
struct ObjectSafe {
    p: Box<dyn ArbitraryOrd<Self>>,
    q: Box<dyn PartialOrd<Self>>, // Sanity check.
}

#[test]
fn can_compare() {
    let a = Point::new(2, 3);
    let b = Point::new(5, 7);

    assert!(Ordered(a) < Ordered(b));
}

#[test]
fn can_compare_with_from_ref() {
    let a = Point::new(2, 3);
    let b = Point::new(5, 7);

    assert!(Ordered::from_ref(&a) < Ordered::from_ref(&b));
}

#[test]
fn can_compare_with_reference() {
    let a = Point::new(2, 3);
    let b = Point::new(5, 7);

    assert!(Ordered(&a) < Ordered(&b));
}

#[test]
fn send() {
    assert_send::<Ordered<Point>>();
    assert_sync::<Ordered<Point>>();
}

#[test]
fn trait_is_object_safe() {}

#[test]
fn cmp_is_reflexive() {
    let a = Point::new(2, 3);
    assert_eq!(Ordered(a).cmp(&Ordered(a)), Ordering::Equal);

    let m = Point::new(u32::MAX, u32::MAX);
    assert_eq!(Ordered(m).cmp(&Ordered(m)), Ordering::Equal);
}

#[test]
fn cmp_is_antisymmetric() {
    let a = Ordered(Point::new(2, 3));
    let b = Ordered(Point::new(2, 4));

    assert!(a < b);
    assert!(!(b < a));
    assert_eq!(b.cmp(&a), Ordering::Greater);
}

#[test]
fn cmp_is_transitive() {
    let a = Ordered(Point::new(1, 9));
    let b = Ordered(Point::new(2, 3));
    let c = Ordered(Point::new(2, 5));

    assert!(a < b);
    assert!(b < c);
    assert!(a < c);
}

#[test]
fn cmp_is_total() {
    let a = Ordered(Point::new(2, 3));
    let b = Ordered(Point::new(2, 4));

    // A strictly smaller pair: `<` holds, the other two do not.
    assert!(a < b);
    assert!(a != b);
    assert!(!(a > b));

    // An equal pair: `==` holds, the other two do not.
    let c = Ordered(Point::new(2, 3));
    assert!(a == c);
    assert!(!(a < c));
    assert!(!(a > c));

    // A strictly greater pair: `>` holds, the other two do not.
    assert!(b > a);
    assert!(b != a);
    assert!(!(b < a));
}

#[test]
fn partial_cmp_agrees_with_cmp() {
    let a = Ordered(Point::new(2, 3));
    let b = Ordered(Point::new(5, 7));

    assert_eq!(a.partial_cmp(&b), Some(a.cmp(&b)));
    assert_eq!(b.partial_cmp(&a), Some(b.cmp(&a)));
    assert_eq!(a.partial_cmp(&a), Some(Ordering::Equal));
}

#[test]
fn wrapper_is_transparent() {
    let p = Point::new(0, 1);
    let ordered = Ordered(p);

    assert_eq!(*ordered, p); // Use `ops::Deref`.
    assert_eq!(&ordered.0, ordered.as_ref()); // Use the public inner field or `AsRef`.
    assert_eq!(ordered.as_inner(), &p);
    assert_eq!(ordered.into_inner(), p);
    assert_eq!(Ordered::new(p).0, p);

    let converted: Ordered<Point> = Point::new(0, 1).into();
    assert_eq!(converted.0, p);
}

#[test]
fn wrapper_allows_mutation_of_inner() {
    let mut ordered = Ordered(Point::new(0, 1));

    ordered.as_mut().x = 7;
    assert_eq!(ordered.0, Point::new(7, 1));

    *ordered = Point::new(8, 9); // Use `ops::DerefMut`.
    assert_eq!(ordered.0, Point::new(8, 9));
}

#[test]
fn from_ref_compares_equal_to_wrapped_copy() {
    let a = Point::new(2, 3);
    let copy = a;

    let borrowed = Ordered::from_ref(&a);
    let owned = Ordered(copy);

    assert_eq!(borrowed.cmp(&Ordered::from_ref(&owned.0)), Ordering::Equal);
    assert_eq!(*borrowed.0, owned.0);
}
