//! Tests of the operator layer: the four operand combinations of every
//! operator agree, the modulo operators are Euclidean, and the in-place
//! counterparts match the pure ones.

use veccentric::Vecc;

#[test]
fn add_combinations_agree() {
    let a: Vecc<i64> = Vecc::new(3, 4);
    let b: Vecc<i64> = Vecc::new(10, -2);
    let expected = Vecc::new(13, 2);
    assert_eq!(a + b, expected);
    assert_eq!(&a + b, expected);
    assert_eq!(a + &b, expected);
    assert_eq!(&a + &b, expected);
}

#[test]
fn sub_combinations_agree() {
    let a: Vecc<i64> = Vecc::new(3, 4);
    let b: Vecc<i64> = Vecc::new(10, -2);
    let expected = Vecc::new(-7, 6);
    assert_eq!(a - b, expected);
    assert_eq!(&a - b, expected);
    assert_eq!(a - &b, expected);
    assert_eq!(&a - &b, expected);
}

#[test]
fn mul_combinations_agree() {
    let a: Vecc<i64> = Vecc::new(3, -4);
    let s: i64 = 5;
    let expected = Vecc::new(15, -20);
    assert_eq!(a * s, expected);
    assert_eq!(&a * s, expected);
    assert_eq!(a * &s, expected);
    assert_eq!(&a * &s, expected);
}

#[test]
fn div_combinations_agree() {
    let a: Vecc<i64> = Vecc::new(15, -20);
    let s: i64 = 5;
    let expected = Vecc::new(3, -4);
    assert_eq!(a / s, expected);
    assert_eq!(&a / s, expected);
    assert_eq!(a / &s, expected);
    assert_eq!(&a / &s, expected);
}

#[test]
fn rem_combinations_agree() {
    let a: Vecc<i64> = Vecc::new(-3, 23);
    let s: i64 = 10;
    let expected = Vecc::new(7, 3);
    assert_eq!(a % s, expected);
    assert_eq!(&a % s, expected);
    assert_eq!(a % &s, expected);
    assert_eq!(&a % &s, expected);

    let m: Vecc<i64> = Vecc::new(10, 7);
    let expected_vec = Vecc::new(7, 2);
    assert_eq!(a % m, expected_vec);
    assert_eq!(&a % m, expected_vec);
    assert_eq!(a % &m, expected_vec);
    assert_eq!(&a % &m, expected_vec);
}

#[test]
fn division_truncates_toward_zero() {
    let a: Vecc<i64> = Vecc::new(-7, 7);
    let q = a / 2;
    assert_eq!(q, Vecc::new(-3, 3));
    assert_eq!(-7 / 2, -3);
}

#[test]
fn modulo_is_euclidean() {
    // The whole point of the modulo design: -3 mod 10 is 7, not -3.
    let a: Vecc<i64> = Vecc::new(-3, -13);
    let r = a % 10;
    assert_eq!(r, Vecc::new(7, 7));
    assert!(r.x >= 0 && r.x < 10);
    assert!(r.y >= 0 && r.y < 10);
}

#[test]
fn negation() {
    let a: Vecc<i64> = Vecc::new(-100, 100);
    assert_eq!(-a, Vecc::new(100, -100));
    assert_eq!(-&a, Vecc::new(100, -100));
}

#[test]
fn bitwise_complement() {
    let a: Vecc<i64> = Vecc::new(-100, 100);
    assert_eq!(!a, Vecc::new(99, -101));
    assert_eq!(!&a, Vecc::new(99, -101));
    assert_eq!((!a).x, !(-100i64));
    assert_eq!((!a).y, !100i64);
}

#[test]
fn i32_components() {
    let a: Vecc<i32> = Vecc::new(-3, 23);
    assert_eq!(a % 10, Vecc::new(7, 3));
    assert_eq!(a + Vecc::new(1, 1), Vecc::new(-2, 24));
    assert_eq!(a * 2, Vecc::new(-6, 46));
    assert_eq!(-a, Vecc::new(3, -23));
}

#[test]
fn add_assign_matches_add() {
    let mut a: Vecc<i64> = Vecc::new(1, 2);
    let b = Vecc::new(10, 10);
    a.add_assign_with(b);
    assert_eq!(a, Vecc::new(1, 2) + b);
}

#[test]
fn sub_assign_matches_sub() {
    let mut a: Vecc<i64> = Vecc::new(1, 2);
    let b = Vecc::new(10, 10);
    a.sub_assign_with(b);
    assert_eq!(a, Vecc::new(1, 2) - b);
}

#[test]
fn mul_assign_matches_mul() {
    let mut a: Vecc<i64> = Vecc::new(3, -4);
    a.mul_assign_with(5);
    assert_eq!(a, Vecc::new(3, -4) * 5);
}

#[test]
fn div_assign_matches_div() {
    let mut a: Vecc<i64> = Vecc::new(15, -20);
    a.div_assign_with(5);
    assert_eq!(a, Vecc::new(15, -20) / 5);
}

#[test]
fn rem_assign_matches_rem() {
    let mut a: Vecc<i64> = Vecc::new(-3, 23);
    a.rem_assign_with(Vecc::new(10, 7));
    assert_eq!(a, Vecc::new(-3, 23) % Vecc::new(10, 7));

    let mut b: Vecc<i64> = Vecc::new(-3, 23);
    b.rem_assign_scalar(10);
    assert_eq!(b, Vecc::new(-3, 23) % 10);
}

#[test]
fn modulo_with_negative_modulus() {
    // The Euclidean remainder is non-negative for a negative modulus too:
    // it lies in [0, |m|).
    let a: Vecc<i64> = Vecc::new(7, -7);
    let r = a % -3;
    assert_eq!(r, Vecc::new(1, 2));
}

#[test]
fn division_with_negative_operands() {
    let a: Vecc<i64> = Vecc::new(-7, 7);
    assert_eq!(a / -2, Vecc::new(3, -3));
    let b: Vecc<i64> = Vecc::new(-9, 9);
    assert_eq!(b / 4, Vecc::new(-2, 2));
}
