//! The generic two-component vector.

use vstd::prelude::*;

use crate::scalar::Scalar;

verus! {

/// Generic vector with two components.
///
/// A plain value type: copied freely, compared field by field, never
/// normalized. The component type decides which operations exist; the
/// arithmetic layer asks for [`Scalar`] components, while construction works
/// for any `T`.
#[derive(Copy, Clone, Eq, PartialEq, Structural, Default, Hash, Debug)]
pub struct Vecc<T> {
    /// The first component.
    pub x: T,

    /// The second component.
    pub y: T,
}

impl<T: Scalar> View for Vecc<T> {
    type V = (int, int);

    open spec fn view(&self) -> (int, int) {
        (self.x.to_int(), self.y.to_int())
    }
}

impl<T> Vecc<T> {
    /// Constructs a new vector from its two components.
    pub fn new(x: T, y: T) -> (v: Self)
        ensures
            v == (Vecc { x, y }),
    {
        Vecc { x, y }
    }
}

impl<T: Scalar> Vecc<T> {
    /// Takes the dot product of the vector with another.
    pub fn dot(self, rhs: Vecc<T>) -> (r: T)
        requires
            T::in_range(self@.0 * rhs@.0),
            T::in_range(self@.1 * rhs@.1),
            T::in_range(self@.0 * rhs@.0 + self@.1 * rhs@.1),
        ensures
            r == T::of_int(self@.0 * rhs@.0 + self@.1 * rhs@.1),
    {
        proof {
            T::lemma_of_int_to_int(self@.0 * rhs@.0);
            T::lemma_of_int_to_int(self@.1 * rhs@.1);
        }
        self.x.mul_val(rhs.x).add_val(self.y.mul_val(rhs.y))
    }

    /// Takes the cross product (a scalar) of the vector with another:
    /// the z-component of the 3D cross product of the two vectors embedded
    /// in the xy-plane.
    pub fn cross(self, rhs: Vecc<T>) -> (r: T)
        requires
            T::in_range(self@.0 * rhs@.1),
            T::in_range(self@.1 * rhs@.0),
            T::in_range(self@.0 * rhs@.1 - self@.1 * rhs@.0),
        ensures
            r == T::of_int(self@.0 * rhs@.1 - self@.1 * rhs@.0),
    {
        proof {
            T::lemma_of_int_to_int(self@.0 * rhs@.1);
            T::lemma_of_int_to_int(self@.1 * rhs@.0);
        }
        self.x.mul_val(rhs.y).sub_val(self.y.mul_val(rhs.x))
    }

    /// Performs element-wise minimum.
    pub fn min(self, rhs: Vecc<T>) -> (r: Vecc<T>)
        ensures
            r.x == (if self@.0 <= rhs@.0 {
                self.x
            } else {
                rhs.x
            }),
            r.y == (if self@.1 <= rhs@.1 {
                self.y
            } else {
                rhs.y
            }),
    {
        Vecc { x: self.x.min_val(rhs.x), y: self.y.min_val(rhs.y) }
    }

    /// Performs element-wise maximum.
    pub fn max(self, rhs: Vecc<T>) -> (r: Vecc<T>)
        ensures
            r.x == (if self@.0 >= rhs@.0 {
                self.x
            } else {
                rhs.x
            }),
            r.y == (if self@.1 >= rhs@.1 {
                self.y
            } else {
                rhs.y
            }),
    {
        Vecc { x: self.x.max_val(rhs.x), y: self.y.max_val(rhs.y) }
    }

    /// Performs element-wise clamping into the interval that `min` and `max`
    /// bound. Each bound pair must be ordered, which rules out the inputs on
    /// which the unordered clamp of the standard library panics.
    pub fn clamp(self, min: Vecc<T>, max: Vecc<T>) -> (r: Vecc<T>)
        requires
            min@.0 <= max@.0,
            min@.1 <= max@.1,
        ensures
            r.x == (if self@.0 < min@.0 {
                min.x
            } else if self@.0 > max@.0 {
                max.x
            } else {
                self.x
            }),
            r.y == (if self@.1 < min@.1 {
                min.y
            } else if self@.1 > max@.1 {
                max.y
            } else {
                self.y
            }),
    {
        Vecc { x: self.x.max_val(min.x).min_val(max.x), y: self.y.max_val(min.y).min_val(max.y) }
    }
}

} // verus!
