//! Conversions in and out of [`Vecc`].
//!
//! A vector converts losslessly from and to a 2-tuple, and component-wise
//! between component types where the narrower one widens into the other.
//! Converting a vector to its own component type is deliberately left to the
//! identity conversion that the standard library already provides for every
//! type, so it returns the value unchanged rather than rebuilding it.

use vstd::prelude::*;
use vstd::std_specs::convert::FromSpecImpl;

use crate::vecc::Vecc;

verus! {

// From a 2-tuple.
impl<T> From<(T, T)> for Vecc<T> {
    fn from(t: (T, T)) -> (v: Vecc<T>) {
        Vecc { x: t.0, y: t.1 }
    }
}

impl<T> FromSpecImpl<(T, T)> for Vecc<T> {
    open spec fn obeys_from_spec() -> bool {
        true
    }

    open spec fn from_spec(t: (T, T)) -> Vecc<T> {
        Vecc { x: t.0, y: t.1 }
    }
}

// Back to a 2-tuple.
impl<T> From<Vecc<T>> for (T, T) {
    fn from(v: Vecc<T>) -> (t: (T, T)) {
        (v.x, v.y)
    }
}

impl<T> FromSpecImpl<Vecc<T>> for (T, T) {
    open spec fn obeys_from_spec() -> bool {
        true
    }

    open spec fn from_spec(v: Vecc<T>) -> (T, T) {
        (v.x, v.y)
    }
}

// Component-wise widening: every 32-bit component fits in a 64-bit one.
impl From<Vecc<i32>> for Vecc<i64> {
    fn from(v: Vecc<i32>) -> (r: Vecc<i64>) {
        Vecc { x: v.x as i64, y: v.y as i64 }
    }
}

impl FromSpecImpl<Vecc<i32>> for Vecc<i64> {
    open spec fn obeys_from_spec() -> bool {
        true
    }

    open spec fn from_spec(v: Vecc<i32>) -> Vecc<i64> {
        Vecc { x: v.x as i64, y: v.y as i64 }
    }
}

} // verus!
