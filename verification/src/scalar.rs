//! The numeric component abstraction behind [`Vecc`](crate::Vecc).
//!
//! A [`Scalar`] is a copyable component type whose values stand for
//! mathematical integers. Every arithmetic method carries an exact contract
//! over that integer model, so the vector layer can state component-wise
//! results precisely and prove them free of overflow.

use vstd::prelude::*;

verus! {

/// Rust's `/` on integers: the quotient rounded toward zero.
///
/// Spec-level `/` on `int` is Euclidean division, so the truncating quotient
/// is spelled out here by sign analysis on the operands.
pub open spec fn trunc_div(a: int, b: int) -> int
    recommends
        b != 0,
{
    if a == 0 {
        0
    } else if a > 0 && b > 0 {
        a / b
    } else if a < 0 && b < 0 {
        (-a) / (-b)
    } else if a < 0 {
        -((-a) / b)
    } else {
        -(a / (-b))
    }
}

/// A two's-complement integer component type.
///
/// `to_int` reads a value as the mathematical integer it stands for;
/// `of_int` is its inverse on the representable interval, which `in_range`
/// describes. The arithmetic methods compute exactly the integer result their
/// `ensures` name, and their `requires` keep that result representable, so
/// none of them can overflow or panic.
pub trait Scalar: Sized + Copy {
    /// The mathematical integer this value stands for.
    spec fn to_int(self) -> int;

    /// The value standing for `v`; meaningful when `Self::in_range(v)`.
    spec fn of_int(v: int) -> Self;

    /// Whether the integer `v` is representable in this type.
    spec fn in_range(v: int) -> bool;

    /// Every value of the type stands for a representable integer.
    proof fn lemma_in_range(self)
        ensures
            Self::in_range(self.to_int()),
    ;

    /// Zero is representable.
    proof fn lemma_in_range_zero()
        ensures
            Self::in_range(0),
    ;

    /// The representable integers form an interval.
    proof fn lemma_in_range_interval(lo: int, mid: int, hi: int)
        requires
            Self::in_range(lo),
            Self::in_range(hi),
            lo <= mid <= hi,
        ensures
            Self::in_range(mid),
    ;

    /// Reading back a representable integer returns it unchanged.
    proof fn lemma_of_int_to_int(v: int)
        requires
            Self::in_range(v),
        ensures
            Self::of_int(v).to_int() == v,
    ;

    /// Rebuilding a value from its integer returns it unchanged.
    proof fn lemma_to_int_of_int(self)
        ensures
            Self::of_int(self.to_int()) == self,
    ;

    /// Exact addition.
    fn add_val(self, rhs: Self) -> (r: Self)
        requires
            Self::in_range(self.to_int() + rhs.to_int()),
        ensures
            r == Self::of_int(self.to_int() + rhs.to_int()),
    ;

    /// Exact subtraction.
    fn sub_val(self, rhs: Self) -> (r: Self)
        requires
            Self::in_range(self.to_int() - rhs.to_int()),
        ensures
            r == Self::of_int(self.to_int() - rhs.to_int()),
    ;

    /// Exact multiplication.
    fn mul_val(self, rhs: Self) -> (r: Self)
        requires
            Self::in_range(self.to_int() * rhs.to_int()),
        ensures
            r == Self::of_int(self.to_int() * rhs.to_int()),
    ;

    /// Division with the quotient rounded toward zero, as Rust's `/` computes.
    fn div_trunc(self, rhs: Self) -> (r: Self)
        requires
            rhs.to_int() != 0,
            Self::in_range(trunc_div(self.to_int(), rhs.to_int())),
        ensures
            r == Self::of_int(trunc_div(self.to_int(), rhs.to_int())),
    ;

    /// Euclidean remainder: the result is non-negative whenever it exists.
    /// Spec-level `%` on `int` is exactly the Euclidean remainder.
    fn rem_euclid_val(self, rhs: Self) -> (r: Self)
        requires
            rhs.to_int() != 0,
            Self::in_range(self.to_int() % rhs.to_int()),
        ensures
            r == Self::of_int(self.to_int() % rhs.to_int()),
    ;

    /// Exact negation.
    fn neg_val(self) -> (r: Self)
        requires
            Self::in_range(-self.to_int()),
        ensures
            r == Self::of_int(-self.to_int()),
    ;

    /// Bitwise complement; on two's-complement integers it maps `v` to
    /// `-1 - v`, which is always representable.
    fn not_val(self) -> (r: Self)
        requires
            Self::in_range(-1 - self.to_int()),
        ensures
            r == Self::of_int(-1 - self.to_int()),
    ;

    /// The smaller of the two values; the receiver wins ties.
    fn min_val(self, rhs: Self) -> (r: Self)
        ensures
            r == (if self.to_int() <= rhs.to_int() {
                self
            } else {
                rhs
            }),
    ;

    /// The larger of the two values; the receiver wins ties.
    fn max_val(self, rhs: Self) -> (r: Self)
        ensures
            r == (if self.to_int() >= rhs.to_int() {
                self
            } else {
                rhs
            }),
    ;
}

impl Scalar for i64 {
    open spec fn to_int(self) -> int {
        self as int
    }

    open spec fn of_int(v: int) -> i64 {
        v as i64
    }

    open spec fn in_range(v: int) -> bool {
        i64::MIN <= v <= i64::MAX
    }

    proof fn lemma_in_range(self) {
    }

    proof fn lemma_in_range_zero() {
    }

    proof fn lemma_in_range_interval(lo: int, mid: int, hi: int) {
    }

    proof fn lemma_of_int_to_int(v: int) {
    }

    proof fn lemma_to_int_of_int(self) {
    }

    fn add_val(self, rhs: i64) -> (r: i64) {
        self + rhs
    }

    fn sub_val(self, rhs: i64) -> (r: i64) {
        self - rhs
    }

    fn mul_val(self, rhs: i64) -> (r: i64) {
        self * rhs
    }

    fn div_trunc(self, rhs: i64) -> (r: i64) {
        self.checked_div(rhs).unwrap()
    }

    fn rem_euclid_val(self, rhs: i64) -> (r: i64) {
        if rhs == -1 {
            0
        } else {
            self.checked_rem_euclid(rhs).unwrap()
        }
    }

    fn neg_val(self) -> (r: i64) {
        -self
    }

    fn not_val(self) -> (r: i64) {
        -1 - self
    }

    fn min_val(self, rhs: i64) -> (r: i64) {
        if self <= rhs {
            self
        } else {
            rhs
        }
    }

    fn max_val(self, rhs: i64) -> (r: i64) {
        if self >= rhs {
            self
        } else {
            rhs
        }
    }
}

impl Scalar for i32 {
    open spec fn to_int(self) -> int {
        self as int
    }

    open spec fn of_int(v: int) -> i32 {
        v as i32
    }

    open spec fn in_range(v: int) -> bool {
        i32::MIN <= v <= i32::MAX
    }

    proof fn lemma_in_range(self) {
    }

    proof fn lemma_in_range_zero() {
    }

    proof fn lemma_in_range_interval(lo: int, mid: int, hi: int) {
    }

    proof fn lemma_of_int_to_int(v: int) {
    }

    proof fn lemma_to_int_of_int(self) {
    }

    fn add_val(self, rhs: i32) -> (r: i32) {
        self + rhs
    }

    fn sub_val(self, rhs: i32) -> (r: i32) {
        self - rhs
    }

    fn mul_val(self, rhs: i32) -> (r: i32) {
        self * rhs
    }

    fn div_trunc(self, rhs: i32) -> (r: i32) {
        self.checked_div(rhs).unwrap()
    }

    fn rem_euclid_val(self, rhs: i32) -> (r: i32) {
        if rhs == -1 {
            0
        } else {
            self.checked_rem_euclid(rhs).unwrap()
        }
    }

    fn neg_val(self) -> (r: i32) {
        -self
    }

    fn not_val(self) -> (r: i32) {
        -1 - self
    }

    fn min_val(self, rhs: i32) -> (r: i32) {
        if self <= rhs {
            self
        } else {
            rhs
        }
    }

    fn max_val(self, rhs: i32) -> (r: i32) {
        if self >= rhs {
            self
        } else {
            rhs
        }
    }
}

} // verus!
