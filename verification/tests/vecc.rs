//! Tests of the generic vector core: construction, products, ordering
//! operations and conversions.

use veccentric::Vecc;

#[test]
fn new_sets_components() {
    let a: Vecc<i32> = Vecc::new(10, 0);
    assert_eq!(a.x, 10);
    assert_eq!(a.y, 0);
}

#[test]
fn dot_product() {
    let a: Vecc<i32> = Vecc::new(10, 0);
    let b: Vecc<i32> = Vecc::new(5, 0);
    assert_eq!(a.dot(b), 50);

    let c: Vecc<i64> = Vecc::new(3, 4);
    let d: Vecc<i64> = Vecc::new(-2, 5);
    assert_eq!(c.dot(d), 3 * -2 + 4 * 5);
}

#[test]
fn cross_product() {
    let a: Vecc<i32> = Vecc::new(10, 0);
    let b: Vecc<i32> = Vecc::new(0, -10);
    assert_eq!(a.cross(b), -100);

    let c: Vecc<i64> = Vecc::new(1, 2);
    let d: Vecc<i64> = Vecc::new(3, 4);
    assert_eq!(c.cross(d), 1 * 4 - 2 * 3);
}

#[test]
fn element_wise_min() {
    let a: Vecc<i32> = Vecc::new(-100, 100);
    let b: Vecc<i32> = Vecc::new(0, 0);
    let min = a.min(b);
    assert_eq!(min.x, -100);
    assert_eq!(min.y, 0);
}

#[test]
fn element_wise_max() {
    let a: Vecc<i32> = Vecc::new(-100, 100);
    let b: Vecc<i32> = Vecc::new(0, 0);
    let max = a.max(b);
    assert_eq!(max.x, 0);
    assert_eq!(max.y, 100);
}

#[test]
fn element_wise_clamp() {
    let a: Vecc<i32> = Vecc::new(-100, 100);
    let min: Vecc<i32> = Vecc::new(0, 10);
    let max: Vecc<i32> = Vecc::new(0, 10);
    let clamped = a.clamp(min, max);
    assert_eq!(clamped.x, 0);
    assert_eq!(clamped.y, 10);

    let inside: Vecc<i64> = Vecc::new(5, 5);
    let kept = inside.clamp(Vecc::new(0, 0), Vecc::new(10, 10));
    assert_eq!(kept, inside);
}

#[test]
fn from_tuple() {
    let a: Vecc<i32> = (10, 0).into();
    assert_eq!(a, Vecc::new(10, 0));
}

#[test]
fn into_tuple() {
    let a: Vecc<i64> = Vecc::new(-7, 9);
    let t: (i64, i64) = a.into();
    assert_eq!(t, (-7, 9));
}

#[test]
fn widening_conversion() {
    let narrow: Vecc<i32> = Vecc::new(i32::MIN, i32::MAX);
    let wide: Vecc<i64> = narrow.into();
    assert_eq!(wide.x, i32::MIN as i64);
    assert_eq!(wide.y, i32::MAX as i64);
}

#[test]
fn identity_conversion_is_unchanged() {
    let a: Vecc<i64> = Vecc::new(3, 4);
    let same: Vecc<i64> = a.into();
    assert_eq!(same, a);
}

#[test]
fn value_type_semantics() {
    let a: Vecc<i64> = Vecc::new(1, 2);
    let copy = a;
    assert_eq!(copy, a);
    assert_ne!(a, Vecc::new(2, 1));
    assert_eq!(Vecc::<i64>::default(), Vecc::new(0, 0));
}
