//! Arithmetic operators on [`Vecc`].
//!
//! Each operator exists for every combination of owned and borrowed
//! operands, as callers of a vector library mix both freely. All
//! combinations of one operator share a single specification function, so
//! the contracts themselves state that every combination returns the same
//! value.

use core::ops::{Add, Div, Mul, Neg, Not, Rem, Sub};
use vstd::prelude::*;
use vstd::std_specs::ops::{
    AddSpecImpl, DivSpecImpl, MulSpecImpl, NegSpecImpl, NotSpecImpl, RemSpecImpl, SubSpecImpl,
};

use crate::scalar::{trunc_div, Scalar};
use crate::vecc::Vecc;

verus! {

impl<T: Scalar> Vecc<T> {
    /// Whether the component-wise sum with `rhs` is representable.
    pub open spec fn can_add(self, rhs: Vecc<T>) -> bool {
        T::in_range(self@.0 + rhs@.0) && T::in_range(self@.1 + rhs@.1)
    }

    /// The component-wise sum with `rhs`.
    pub open spec fn spec_sum(self, rhs: Vecc<T>) -> Vecc<T> {
        Vecc { x: T::of_int(self@.0 + rhs@.0), y: T::of_int(self@.1 + rhs@.1) }
    }

    /// Whether the component-wise difference with `rhs` is representable.
    pub open spec fn can_sub(self, rhs: Vecc<T>) -> bool {
        T::in_range(self@.0 - rhs@.0) && T::in_range(self@.1 - rhs@.1)
    }

    /// The component-wise difference with `rhs`.
    pub open spec fn spec_diff(self, rhs: Vecc<T>) -> Vecc<T> {
        Vecc { x: T::of_int(self@.0 - rhs@.0), y: T::of_int(self@.1 - rhs@.1) }
    }

    /// Whether both components scaled by `s` are representable.
    pub open spec fn can_scale(self, s: T) -> bool {
        T::in_range(self@.0 * s.to_int()) && T::in_range(self@.1 * s.to_int())
    }

    /// Both components scaled by `s`.
    pub open spec fn spec_scaled(self, s: T) -> Vecc<T> {
        Vecc { x: T::of_int(self@.0 * s.to_int()), y: T::of_int(self@.1 * s.to_int()) }
    }

    /// Whether both components can be divided by `s`: the divisor is
    /// non-zero and each truncated quotient is representable.
    pub open spec fn can_div(self, s: T) -> bool {
        &&& s.to_int() != 0
        &&& T::in_range(trunc_div(self@.0, s.to_int()))
        &&& T::in_range(trunc_div(self@.1, s.to_int()))
    }

    /// Both components divided by `s`, quotients rounded toward zero as
    /// Rust's integer `/` rounds them.
    pub open spec fn spec_quot(self, s: T) -> Vecc<T> {
        Vecc {
            x: T::of_int(trunc_div(self@.0, s.to_int())),
            y: T::of_int(trunc_div(self@.1, s.to_int())),
        }
    }

    /// Whether the component-wise Euclidean remainder by `rhs` exists: both
    /// moduli are non-zero and each remainder is representable.
    pub open spec fn can_mod(self, rhs: Vecc<T>) -> bool {
        &&& rhs@.0 != 0
        &&& rhs@.1 != 0
        &&& T::in_range(self@.0 % rhs@.0)
        &&& T::in_range(self@.1 % rhs@.1)
    }

    /// The component-wise Euclidean remainder by `rhs`. Spec-level `%` on
    /// `int` is the Euclidean remainder: non-negative for any non-zero
    /// modulus.
    pub open spec fn spec_mod(self, rhs: Vecc<T>) -> Vecc<T> {
        Vecc { x: T::of_int(self@.0 % rhs@.0), y: T::of_int(self@.1 % rhs@.1) }
    }

    /// Whether the Euclidean remainder of both components by `s` exists.
    pub open spec fn can_mod_scalar(self, s: T) -> bool {
        &&& s.to_int() != 0
        &&& T::in_range(self@.0 % s.to_int())
        &&& T::in_range(self@.1 % s.to_int())
    }

    /// The Euclidean remainder of both components by `s`.
    pub open spec fn spec_mod_scalar(self, s: T) -> Vecc<T> {
        Vecc { x: T::of_int(self@.0 % s.to_int()), y: T::of_int(self@.1 % s.to_int()) }
    }

    /// Whether both negated components are representable.
    pub open spec fn can_neg(self) -> bool {
        T::in_range(-self@.0) && T::in_range(-self@.1)
    }

    /// The component-wise negation.
    pub open spec fn spec_negated(self) -> Vecc<T> {
        Vecc { x: T::of_int(-self@.0), y: T::of_int(-self@.1) }
    }

    /// Whether both complemented components are representable.
    pub open spec fn can_not(self) -> bool {
        T::in_range(-1 - self@.0) && T::in_range(-1 - self@.1)
    }

    /// The component-wise bitwise complement: on two's-complement
    /// components it maps each `v` to `-1 - v`.
    pub open spec fn spec_complement(self) -> Vecc<T> {
        Vecc { x: T::of_int(-1 - self@.0), y: T::of_int(-1 - self@.1) }
    }
}

// Vector addition: owned lhs, owned rhs.
impl<T: Scalar> Add<Vecc<T>> for Vecc<T> {
    type Output = Vecc<T>;

    fn add(self, rhs: Vecc<T>) -> (r: Vecc<T>) {
        Vecc { x: self.x.add_val(rhs.x), y: self.y.add_val(rhs.y) }
    }
}

impl<T: Scalar> AddSpecImpl<Vecc<T>> for Vecc<T> {
    open spec fn obeys_add_spec() -> bool {
        true
    }

    open spec fn add_req(self, rhs: Vecc<T>) -> bool {
        self.can_add(rhs)
    }

    open spec fn add_spec(self, rhs: Vecc<T>) -> Vecc<T> {
        self.spec_sum(rhs)
    }
}

// Vector addition: owned lhs, borrowed rhs.
impl<T: Scalar> Add<&Vecc<T>> for Vecc<T> {
    type Output = Vecc<T>;

    fn add(self, rhs: &Vecc<T>) -> (r: Vecc<T>) {
        Vecc { x: self.x.add_val(rhs.x), y: self.y.add_val(rhs.y) }
    }
}

impl<T: Scalar> AddSpecImpl<&Vecc<T>> for Vecc<T> {
    open spec fn obeys_add_spec() -> bool {
        true
    }

    open spec fn add_req(self, rhs: &Vecc<T>) -> bool {
        self.can_add(*rhs)
    }

    open spec fn add_spec(self, rhs: &Vecc<T>) -> Vecc<T> {
        self.spec_sum(*rhs)
    }
}

// Vector addition: borrowed lhs, owned rhs.
impl<T: Scalar> Add<Vecc<T>> for &Vecc<T> {
    type Output = Vecc<T>;

    fn add(self, rhs: Vecc<T>) -> (r: Vecc<T>) {
        Vecc { x: self.x.add_val(rhs.x), y: self.y.add_val(rhs.y) }
    }
}

impl<T: Scalar> AddSpecImpl<Vecc<T>> for &Vecc<T> {
    open spec fn obeys_add_spec() -> bool {
        true
    }

    open spec fn add_req(self, rhs: Vecc<T>) -> bool {
        (*self).can_add(rhs)
    }

    open spec fn add_spec(self, rhs: Vecc<T>) -> Vecc<T> {
        (*self).spec_sum(rhs)
    }
}

// Vector addition: borrowed lhs, borrowed rhs.
impl<T: Scalar> Add<&Vecc<T>> for &Vecc<T> {
    type Output = Vecc<T>;

    fn add(self, rhs: &Vecc<T>) -> (r: Vecc<T>) {
        Vecc { x: self.x.add_val(rhs.x), y: self.y.add_val(rhs.y) }
    }
}

impl<T: Scalar> AddSpecImpl<&Vecc<T>> for &Vecc<T> {
    open spec fn obeys_add_spec() -> bool {
        true
    }

    open spec fn add_req(self, rhs: &Vecc<T>) -> bool {
        (*self).can_add(*rhs)
    }

    open spec fn add_spec(self, rhs: &Vecc<T>) -> Vecc<T> {
        (*self).spec_sum(*rhs)
    }
}

// Component-wise negation: owned operand.
impl<T: Scalar> Neg for Vecc<T> {
    type Output = Vecc<T>;

    fn neg(self) -> (r: Vecc<T>) {
        Vecc { x: self.x.neg_val(), y: self.y.neg_val() }
    }
}

impl<T: Scalar> NegSpecImpl for Vecc<T> {
    open spec fn obeys_neg_spec() -> bool {
        true
    }

    open spec fn neg_req(self) -> bool {
        self.can_neg()
    }

    open spec fn neg_spec(self) -> Vecc<T> {
        self.spec_negated()
    }
}

// Component-wise negation: borrowed operand.
impl<T: Scalar> Neg for &Vecc<T> {
    type Output = Vecc<T>;

    fn neg(self) -> (r: Vecc<T>) {
        Vecc { x: self.x.neg_val(), y: self.y.neg_val() }
    }
}

impl<T: Scalar> NegSpecImpl for &Vecc<T> {
    open spec fn obeys_neg_spec() -> bool {
        true
    }

    open spec fn neg_req(self) -> bool {
        (*self).can_neg()
    }

    open spec fn neg_spec(self) -> Vecc<T> {
        (*self).spec_negated()
    }
}

// Component-wise bitwise complement: owned operand.
impl<T: Scalar> Not for Vecc<T> {
    type Output = Vecc<T>;

    fn not(self) -> (r: Vecc<T>) {
        Vecc { x: self.x.not_val(), y: self.y.not_val() }
    }
}

impl<T: Scalar> NotSpecImpl for Vecc<T> {
    open spec fn obeys_not_spec() -> bool {
        true
    }

    open spec fn not_req(self) -> bool {
        self.can_not()
    }

    open spec fn not_spec(self) -> Vecc<T> {
        self.spec_complement()
    }
}

// Component-wise bitwise complement: borrowed operand.
impl<T: Scalar> Not for &Vecc<T> {
    type Output = Vecc<T>;

    fn not(self) -> (r: Vecc<T>) {
        Vecc { x: self.x.not_val(), y: self.y.not_val() }
    }
}

impl<T: Scalar> NotSpecImpl for &Vecc<T> {
    open spec fn obeys_not_spec() -> bool {
        true
    }

    open spec fn not_req(self) -> bool {
        (*self).can_not()
    }

    open spec fn not_spec(self) -> Vecc<T> {
        (*self).spec_complement()
    }
}

// Vector subtraction: owned lhs, owned rhs.
impl<T: Scalar> Sub<Vecc<T>> for Vecc<T> {
    type Output = Vecc<T>;

    fn sub(self, rhs: Vecc<T>) -> (r: Vecc<T>) {
        Vecc { x: self.x.sub_val(rhs.x), y: self.y.sub_val(rhs.y) }
    }
}

impl<T: Scalar> SubSpecImpl<Vecc<T>> for Vecc<T> {
    open spec fn obeys_sub_spec() -> bool {
        true
    }

    open spec fn sub_req(self, rhs: Vecc<T>) -> bool {
        self.can_sub(rhs)
    }

    open spec fn sub_spec(self, rhs: Vecc<T>) -> Vecc<T> {
        self.spec_diff(rhs)
    }
}

// Vector subtraction: owned lhs, borrowed rhs.
impl<T: Scalar> Sub<&Vecc<T>> for Vecc<T> {
    type Output = Vecc<T>;

    fn sub(self, rhs: &Vecc<T>) -> (r: Vecc<T>) {
        Vecc { x: self.x.sub_val(rhs.x), y: self.y.sub_val(rhs.y) }
    }
}

impl<T: Scalar> SubSpecImpl<&Vecc<T>> for Vecc<T> {
    open spec fn obeys_sub_spec() -> bool {
        true
    }

    open spec fn sub_req(self, rhs: &Vecc<T>) -> bool {
        self.can_sub(*rhs)
    }

    open spec fn sub_spec(self, rhs: &Vecc<T>) -> Vecc<T> {
        self.spec_diff(*rhs)
    }
}

// Vector subtraction: borrowed lhs, owned rhs.
impl<T: Scalar> Sub<Vecc<T>> for &Vecc<T> {
    type Output = Vecc<T>;

    fn sub(self, rhs: Vecc<T>) -> (r: Vecc<T>) {
        Vecc { x: self.x.sub_val(rhs.x), y: self.y.sub_val(rhs.y) }
    }
}

impl<T: Scalar> SubSpecImpl<Vecc<T>> for &Vecc<T> {
    open spec fn obeys_sub_spec() -> bool {
        true
    }

    open spec fn sub_req(self, rhs: Vecc<T>) -> bool {
        (*self).can_sub(rhs)
    }

    open spec fn sub_spec(self, rhs: Vecc<T>) -> Vecc<T> {
        (*self).spec_diff(rhs)
    }
}

// Vector subtraction: borrowed lhs, borrowed rhs.
impl<T: Scalar> Sub<&Vecc<T>> for &Vecc<T> {
    type Output = Vecc<T>;

    fn sub(self, rhs: &Vecc<T>) -> (r: Vecc<T>) {
        Vecc { x: self.x.sub_val(rhs.x), y: self.y.sub_val(rhs.y) }
    }
}

impl<T: Scalar> SubSpecImpl<&Vecc<T>> for &Vecc<T> {
    open spec fn obeys_sub_spec() -> bool {
        true
    }

    open spec fn sub_req(self, rhs: &Vecc<T>) -> bool {
        (*self).can_sub(*rhs)
    }

    open spec fn sub_spec(self, rhs: &Vecc<T>) -> Vecc<T> {
        (*self).spec_diff(*rhs)
    }
}

// Scaling by a scalar: owned lhs, owned rhs.
impl<T: Scalar> Mul<T> for Vecc<T> {
    type Output = Vecc<T>;

    fn mul(self, rhs: T) -> (r: Vecc<T>) {
        Vecc { x: self.x.mul_val(rhs), y: self.y.mul_val(rhs) }
    }
}

impl<T: Scalar> MulSpecImpl<T> for Vecc<T> {
    open spec fn obeys_mul_spec() -> bool {
        true
    }

    open spec fn mul_req(self, rhs: T) -> bool {
        self.can_scale(rhs)
    }

    open spec fn mul_spec(self, rhs: T) -> Vecc<T> {
        self.spec_scaled(rhs)
    }
}

// Scaling by a scalar: owned lhs, borrowed rhs.
impl<T: Scalar> Mul<&T> for Vecc<T> {
    type Output = Vecc<T>;

    fn mul(self, rhs: &T) -> (r: Vecc<T>) {
        Vecc { x: self.x.mul_val(*rhs), y: self.y.mul_val(*rhs) }
    }
}

impl<T: Scalar> MulSpecImpl<&T> for Vecc<T> {
    open spec fn obeys_mul_spec() -> bool {
        true
    }

    open spec fn mul_req(self, rhs: &T) -> bool {
        self.can_scale(*rhs)
    }

    open spec fn mul_spec(self, rhs: &T) -> Vecc<T> {
        self.spec_scaled(*rhs)
    }
}

// Scaling by a scalar: borrowed lhs, owned rhs.
impl<T: Scalar> Mul<T> for &Vecc<T> {
    type Output = Vecc<T>;

    fn mul(self, rhs: T) -> (r: Vecc<T>) {
        Vecc { x: self.x.mul_val(rhs), y: self.y.mul_val(rhs) }
    }
}

impl<T: Scalar> MulSpecImpl<T> for &Vecc<T> {
    open spec fn obeys_mul_spec() -> bool {
        true
    }

    open spec fn mul_req(self, rhs: T) -> bool {
        (*self).can_scale(rhs)
    }

    open spec fn mul_spec(self, rhs: T) -> Vecc<T> {
        (*self).spec_scaled(rhs)
    }
}

// Scaling by a scalar: borrowed lhs, borrowed rhs.
impl<T: Scalar> Mul<&T> for &Vecc<T> {
    type Output = Vecc<T>;

    fn mul(self, rhs: &T) -> (r: Vecc<T>) {
        Vecc { x: self.x.mul_val(*rhs), y: self.y.mul_val(*rhs) }
    }
}

impl<T: Scalar> MulSpecImpl<&T> for &Vecc<T> {
    open spec fn obeys_mul_spec() -> bool {
        true
    }

    open spec fn mul_req(self, rhs: &T) -> bool {
        (*self).can_scale(*rhs)
    }

    open spec fn mul_spec(self, rhs: &T) -> Vecc<T> {
        (*self).spec_scaled(*rhs)
    }
}

// Division by a scalar: owned lhs, owned rhs.
impl<T: Scalar> Div<T> for Vecc<T> {
    type Output = Vecc<T>;

    fn div(self, rhs: T) -> (r: Vecc<T>) {
        Vecc { x: self.x.div_trunc(rhs), y: self.y.div_trunc(rhs) }
    }
}

impl<T: Scalar> DivSpecImpl<T> for Vecc<T> {
    open spec fn obeys_div_spec() -> bool {
        true
    }

    open spec fn div_req(self, rhs: T) -> bool {
        self.can_div(rhs)
    }

    open spec fn div_spec(self, rhs: T) -> Vecc<T> {
        self.spec_quot(rhs)
    }
}

// Division by a scalar: owned lhs, borrowed rhs.
impl<T: Scalar> Div<&T> for Vecc<T> {
    type Output = Vecc<T>;

    fn div(self, rhs: &T) -> (r: Vecc<T>) {
        Vecc { x: self.x.div_trunc(*rhs), y: self.y.div_trunc(*rhs) }
    }
}

impl<T: Scalar> DivSpecImpl<&T> for Vecc<T> {
    open spec fn obeys_div_spec() -> bool {
        true
    }

    open spec fn div_req(self, rhs: &T) -> bool {
        self.can_div(*rhs)
    }

    open spec fn div_spec(self, rhs: &T) -> Vecc<T> {
        self.spec_quot(*rhs)
    }
}

// Division by a scalar: borrowed lhs, owned rhs.
impl<T: Scalar> Div<T> for &Vecc<T> {
    type Output = Vecc<T>;

    fn div(self, rhs: T) -> (r: Vecc<T>) {
        Vecc { x: self.x.div_trunc(rhs), y: self.y.div_trunc(rhs) }
    }
}

impl<T: Scalar> DivSpecImpl<T> for &Vecc<T> {
    open spec fn obeys_div_spec() -> bool {
        true
    }

    open spec fn div_req(self, rhs: T) -> bool {
        (*self).can_div(rhs)
    }

    open spec fn div_spec(self, rhs: T) -> Vecc<T> {
        (*self).spec_quot(rhs)
    }
}

// Division by a scalar: borrowed lhs, borrowed rhs.
impl<T: Scalar> Div<&T> for &Vecc<T> {
    type Output = Vecc<T>;

    fn div(self, rhs: &T) -> (r: Vecc<T>) {
        Vecc { x: self.x.div_trunc(*rhs), y: self.y.div_trunc(*rhs) }
    }
}

impl<T: Scalar> DivSpecImpl<&T> for &Vecc<T> {
    open spec fn obeys_div_spec() -> bool {
        true
    }

    open spec fn div_req(self, rhs: &T) -> bool {
        (*self).can_div(*rhs)
    }

    open spec fn div_spec(self, rhs: &T) -> Vecc<T> {
        (*self).spec_quot(*rhs)
    }
}

// Component-wise Euclidean modulo: owned lhs, owned rhs.
impl<T: Scalar> Rem<Vecc<T>> for Vecc<T> {
    type Output = Vecc<T>;

    fn rem(self, rhs: Vecc<T>) -> (r: Vecc<T>) {
        Vecc { x: self.x.rem_euclid_val(rhs.x), y: self.y.rem_euclid_val(rhs.y) }
    }
}

impl<T: Scalar> RemSpecImpl<Vecc<T>> for Vecc<T> {
    open spec fn obeys_rem_spec() -> bool {
        true
    }

    open spec fn rem_req(self, rhs: Vecc<T>) -> bool {
        self.can_mod(rhs)
    }

    open spec fn rem_spec(self, rhs: Vecc<T>) -> Vecc<T> {
        self.spec_mod(rhs)
    }
}

// Component-wise Euclidean modulo: owned lhs, borrowed rhs.
impl<T: Scalar> Rem<&Vecc<T>> for Vecc<T> {
    type Output = Vecc<T>;

    fn rem(self, rhs: &Vecc<T>) -> (r: Vecc<T>) {
        Vecc { x: self.x.rem_euclid_val(rhs.x), y: self.y.rem_euclid_val(rhs.y) }
    }
}

impl<T: Scalar> RemSpecImpl<&Vecc<T>> for Vecc<T> {
    open spec fn obeys_rem_spec() -> bool {
        true
    }

    open spec fn rem_req(self, rhs: &Vecc<T>) -> bool {
        self.can_mod(*rhs)
    }

    open spec fn rem_spec(self, rhs: &Vecc<T>) -> Vecc<T> {
        self.spec_mod(*rhs)
    }
}

// Component-wise Euclidean modulo: borrowed lhs, owned rhs.
impl<T: Scalar> Rem<Vecc<T>> for &Vecc<T> {
    type Output = Vecc<T>;

    fn rem(self, rhs: Vecc<T>) -> (r: Vecc<T>) {
        Vecc { x: self.x.rem_euclid_val(rhs.x), y: self.y.rem_euclid_val(rhs.y) }
    }
}

impl<T: Scalar> RemSpecImpl<Vecc<T>> for &Vecc<T> {
    open spec fn obeys_rem_spec() -> bool {
        true
    }

    open spec fn rem_req(self, rhs: Vecc<T>) -> bool {
        (*self).can_mod(rhs)
    }

    open spec fn rem_spec(self, rhs: Vecc<T>) -> Vecc<T> {
        (*self).spec_mod(rhs)
    }
}

// Component-wise Euclidean modulo: borrowed lhs, borrowed rhs.
impl<T: Scalar> Rem<&Vecc<T>> for &Vecc<T> {
    type Output = Vecc<T>;

    fn rem(self, rhs: &Vecc<T>) -> (r: Vecc<T>) {
        Vecc { x: self.x.rem_euclid_val(rhs.x), y: self.y.rem_euclid_val(rhs.y) }
    }
}

impl<T: Scalar> RemSpecImpl<&Vecc<T>> for &Vecc<T> {
    open spec fn obeys_rem_spec() -> bool {
        true
    }

    open spec fn rem_req(self, rhs: &Vecc<T>) -> bool {
        (*self).can_mod(*rhs)
    }

    open spec fn rem_spec(self, rhs: &Vecc<T>) -> Vecc<T> {
        (*self).spec_mod(*rhs)
    }
}

// Euclidean modulo by a scalar: owned lhs, owned rhs.
impl<T: Scalar> Rem<T> for Vecc<T> {
    type Output = Vecc<T>;

    fn rem(self, rhs: T) -> (r: Vecc<T>) {
        Vecc { x: self.x.rem_euclid_val(rhs), y: self.y.rem_euclid_val(rhs) }
    }
}

impl<T: Scalar> RemSpecImpl<T> for Vecc<T> {
    open spec fn obeys_rem_spec() -> bool {
        true
    }

    open spec fn rem_req(self, rhs: T) -> bool {
        self.can_mod_scalar(rhs)
    }

    open spec fn rem_spec(self, rhs: T) -> Vecc<T> {
        self.spec_mod_scalar(rhs)
    }
}

// Euclidean modulo by a scalar: owned lhs, borrowed rhs.
impl<T: Scalar> Rem<&T> for Vecc<T> {
    type Output = Vecc<T>;

    fn rem(self, rhs: &T) -> (r: Vecc<T>) {
        Vecc { x: self.x.rem_euclid_val(*rhs), y: self.y.rem_euclid_val(*rhs) }
    }
}

impl<T: Scalar> RemSpecImpl<&T> for Vecc<T> {
    open spec fn obeys_rem_spec() -> bool {
        true
    }

    open spec fn rem_req(self, rhs: &T) -> bool {
        self.can_mod_scalar(*rhs)
    }

    open spec fn rem_spec(self, rhs: &T) -> Vecc<T> {
        self.spec_mod_scalar(*rhs)
    }
}

// Euclidean modulo by a scalar: borrowed lhs, owned rhs.
impl<T: Scalar> Rem<T> for &Vecc<T> {
    type Output = Vecc<T>;

    fn rem(self, rhs: T) -> (r: Vecc<T>) {
        Vecc { x: self.x.rem_euclid_val(rhs), y: self.y.rem_euclid_val(rhs) }
    }
}

impl<T: Scalar> RemSpecImpl<T> for &Vecc<T> {
    open spec fn obeys_rem_spec() -> bool {
        true
    }

    open spec fn rem_req(self, rhs: T) -> bool {
        (*self).can_mod_scalar(rhs)
    }

    open spec fn rem_spec(self, rhs: T) -> Vecc<T> {
        (*self).spec_mod_scalar(rhs)
    }
}

// Euclidean modulo by a scalar: borrowed lhs, borrowed rhs.
impl<T: Scalar> Rem<&T> for &Vecc<T> {
    type Output = Vecc<T>;

    fn rem(self, rhs: &T) -> (r: Vecc<T>) {
        Vecc { x: self.x.rem_euclid_val(*rhs), y: self.y.rem_euclid_val(*rhs) }
    }
}

impl<T: Scalar> RemSpecImpl<&T> for &Vecc<T> {
    open spec fn obeys_rem_spec() -> bool {
        true
    }

    open spec fn rem_req(self, rhs: &T) -> bool {
        (*self).can_mod_scalar(*rhs)
    }

    open spec fn rem_spec(self, rhs: &T) -> Vecc<T> {
        (*self).spec_mod_scalar(*rhs)
    }
}


impl<T: Scalar> Vecc<T> {
    /// In-place vector addition, the mutating counterpart of `+`.
    pub fn add_assign_with(&mut self, rhs: Vecc<T>)
        requires
            old(self).can_add(rhs),
        ensures
            *final(self) == old(self).spec_sum(rhs),
    {
        self.x = self.x.add_val(rhs.x);
        self.y = self.y.add_val(rhs.y);
    }

    /// In-place vector subtraction, the mutating counterpart of `-`.
    pub fn sub_assign_with(&mut self, rhs: Vecc<T>)
        requires
            old(self).can_sub(rhs),
        ensures
            *final(self) == old(self).spec_diff(rhs),
    {
        self.x = self.x.sub_val(rhs.x);
        self.y = self.y.sub_val(rhs.y);
    }

    /// In-place scaling, the mutating counterpart of `*`.
    pub fn mul_assign_with(&mut self, s: T)
        requires
            old(self).can_scale(s),
        ensures
            *final(self) == old(self).spec_scaled(s),
    {
        self.x = self.x.mul_val(s);
        self.y = self.y.mul_val(s);
    }

    /// In-place division by a scalar, the mutating counterpart of `/`.
    pub fn div_assign_with(&mut self, s: T)
        requires
            old(self).can_div(s),
        ensures
            *final(self) == old(self).spec_quot(s),
    {
        self.x = self.x.div_trunc(s);
        self.y = self.y.div_trunc(s);
    }

    /// In-place component-wise Euclidean modulo, the mutating counterpart
    /// of `%` with a vector modulus.
    pub fn rem_assign_with(&mut self, rhs: Vecc<T>)
        requires
            old(self).can_mod(rhs),
        ensures
            *final(self) == old(self).spec_mod(rhs),
    {
        self.x = self.x.rem_euclid_val(rhs.x);
        self.y = self.y.rem_euclid_val(rhs.y);
    }

    /// In-place Euclidean modulo by a scalar, the mutating counterpart of
    /// `%` with a scalar modulus.
    pub fn rem_assign_scalar(&mut self, s: T)
        requires
            old(self).can_mod_scalar(s),
        ensures
            *final(self) == old(self).spec_mod_scalar(s),
    {
        self.x = self.x.rem_euclid_val(s);
        self.y = self.y.rem_euclid_val(s);
    }
}

} // verus!
