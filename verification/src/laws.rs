//! Laws of the vector arithmetic.
//!
//! These proof functions state, once and for all inputs, the properties the
//! operator contracts promise together: every combination of owned and
//! borrowed operands names the same result, and the modulo operators are
//! Euclidean — never negative for a positive modulus.

use vstd::arithmetic::div_mod::lemma_mod_bound;
use vstd::prelude::*;
use vstd::std_specs::ops::{AddSpec, DivSpec, MulSpec, NegSpec, NotSpec, RemSpec, SubSpec};

use crate::scalar::Scalar;
use crate::vecc::Vecc;

verus! {

/// Law: the four operand combinations of vector addition — owned plus
/// owned, owned plus borrowed, borrowed plus owned, borrowed plus borrowed
/// — are all specified to return the same vector, the component-wise sum.
pub proof fn lemma_add_combinations_agree<T: Scalar>(a: Vecc<T>, b: Vecc<T>)
    ensures
        a.add_spec(b) == a.spec_sum(b),
        a.add_spec(&b) == a.spec_sum(b),
        (&a).add_spec(b) == a.spec_sum(b),
        (&a).add_spec(&b) == a.spec_sum(b),
        a.add_req(b) == a.can_add(b),
        a.add_req(&b) == a.can_add(b),
        (&a).add_req(b) == a.can_add(b),
        (&a).add_req(&b) == a.can_add(b),
{
}

/// Law: the four operand combinations of vector subtraction are all
/// specified to return the same vector, the component-wise difference.
pub proof fn lemma_sub_combinations_agree<T: Scalar>(a: Vecc<T>, b: Vecc<T>)
    ensures
        a.sub_spec(b) == a.spec_diff(b),
        a.sub_spec(&b) == a.spec_diff(b),
        (&a).sub_spec(b) == a.spec_diff(b),
        (&a).sub_spec(&b) == a.spec_diff(b),
        a.sub_req(b) == a.can_sub(b),
        a.sub_req(&b) == a.can_sub(b),
        (&a).sub_req(b) == a.can_sub(b),
        (&a).sub_req(&b) == a.can_sub(b),
{
}

/// Law: the four operand combinations of scaling by a scalar are all
/// specified to return the same vector, both components scaled.
pub proof fn lemma_mul_combinations_agree<T: Scalar>(a: Vecc<T>, s: T)
    ensures
        a.mul_spec(s) == a.spec_scaled(s),
        a.mul_spec(&s) == a.spec_scaled(s),
        (&a).mul_spec(s) == a.spec_scaled(s),
        (&a).mul_spec(&s) == a.spec_scaled(s),
        a.mul_req(s) == a.can_scale(s),
        a.mul_req(&s) == a.can_scale(s),
        (&a).mul_req(s) == a.can_scale(s),
        (&a).mul_req(&s) == a.can_scale(s),
{
}

/// Law: the four operand combinations of division by a scalar are all
/// specified to return the same vector, both quotients truncated as Rust's
/// integer `/` truncates them.
pub proof fn lemma_div_combinations_agree<T: Scalar>(a: Vecc<T>, s: T)
    ensures
        a.div_spec(s) == a.spec_quot(s),
        a.div_spec(&s) == a.spec_quot(s),
        (&a).div_spec(s) == a.spec_quot(s),
        (&a).div_spec(&s) == a.spec_quot(s),
        a.div_req(s) == a.can_div(s),
        a.div_req(&s) == a.can_div(s),
        (&a).div_req(s) == a.can_div(s),
        (&a).div_req(&s) == a.can_div(s),
{
}

/// Law: the four operand combinations of the modulo operators agree as
/// well, for a vector modulus and for a scalar modulus alike.
pub proof fn lemma_rem_combinations_agree<T: Scalar>(a: Vecc<T>, m: Vecc<T>, s: T)
    ensures
        a.rem_spec(m) == a.spec_mod(m),
        a.rem_spec(&m) == a.spec_mod(m),
        (&a).rem_spec(m) == a.spec_mod(m),
        (&a).rem_spec(&m) == a.spec_mod(m),
        a.rem_spec(s) == a.spec_mod_scalar(s),
        a.rem_spec(&s) == a.spec_mod_scalar(s),
        (&a).rem_spec(s) == a.spec_mod_scalar(s),
        (&a).rem_spec(&s) == a.spec_mod_scalar(s),
        a.rem_req(m) == a.can_mod(m),
        (&a).rem_req(&m) == a.can_mod(m),
        a.rem_req(s) == a.can_mod_scalar(s),
        (&a).rem_req(&s) == a.can_mod_scalar(s),
{
}

/// Law: the owned and borrowed forms of the unary operators — negation and
/// bitwise complement — are specified to return the same vector.
pub proof fn lemma_unary_combinations_agree<T: Scalar>(a: Vecc<T>)
    ensures
        a.neg_spec() == a.spec_negated(),
        (&a).neg_spec() == a.spec_negated(),
        a.neg_req() == a.can_neg(),
        (&a).neg_req() == a.can_neg(),
        a.not_spec() == a.spec_complement(),
        (&a).not_spec() == a.spec_complement(),
        a.not_req() == a.can_not(),
        (&a).not_req() == a.can_not(),
{
}

/// Law: modulo is Euclidean. For any vector and any positive scalar modulus
/// the operation is defined — no overflow can occur — and each component of
/// the result lies in `[0, m)`, even when the dividend component is
/// negative.
pub proof fn lemma_mod_scalar_euclidean<T: Scalar>(a: Vecc<T>, m: T)
    requires
        m.to_int() > 0,
    ensures
        a.can_mod_scalar(m),
        a.spec_mod_scalar(m)@.0 == a@.0 % m.to_int(),
        a.spec_mod_scalar(m)@.1 == a@.1 % m.to_int(),
        0 <= a.spec_mod_scalar(m)@.0 < m.to_int(),
        0 <= a.spec_mod_scalar(m)@.1 < m.to_int(),
{
    lemma_mod_bound(a@.0, m.to_int());
    lemma_mod_bound(a@.1, m.to_int());
    m.lemma_in_range();
    T::lemma_in_range_zero();
    T::lemma_in_range_interval(0, a@.0 % m.to_int(), m.to_int());
    T::lemma_in_range_interval(0, a@.1 % m.to_int(), m.to_int());
    T::lemma_of_int_to_int(a@.0 % m.to_int());
    T::lemma_of_int_to_int(a@.1 % m.to_int());
}

/// Law: modulo by a vector whose components are both positive is likewise
/// always defined and component-wise Euclidean.
pub proof fn lemma_mod_vector_euclidean<T: Scalar>(a: Vecc<T>, m: Vecc<T>)
    requires
        m@.0 > 0,
        m@.1 > 0,
    ensures
        a.can_mod(m),
        a.spec_mod(m)@.0 == a@.0 % m@.0,
        a.spec_mod(m)@.1 == a@.1 % m@.1,
        0 <= a.spec_mod(m)@.0 < m@.0,
        0 <= a.spec_mod(m)@.1 < m@.1,
{
    lemma_mod_bound(a@.0, m@.0);
    lemma_mod_bound(a@.1, m@.1);
    m.x.lemma_in_range();
    m.y.lemma_in_range();
    T::lemma_in_range_zero();
    T::lemma_in_range_interval(0, a@.0 % m@.0, m@.0);
    T::lemma_in_range_interval(0, a@.1 % m@.1, m@.1);
    T::lemma_of_int_to_int(a@.0 % m@.0);
    T::lemma_of_int_to_int(a@.1 % m@.1);
}

} // verus!
