//! Tiny two-dimensional vector library.
//!
//! The main type, [`Vecc<T>`], is a generic pair of numeric components with
//! component-wise arithmetic: the binary operators for every combination of
//! owned and borrowed operands, dot and cross products, ordering-based
//! element-wise operations, and a `%` that is Euclidean — never negative
//! for a positive modulus — so simulations can wrap positions around a
//! boundary.
//!
//! Contracts model every component as a mathematical integer through the
//! [`Scalar`] trait, so each operation states exactly which value it
//! returns and is proved free of overflow under its stated preconditions;
//! [`laws`] states and proves the properties the operator family promises
//! as a whole.

pub mod arith;
pub mod convert;
pub mod laws;
pub mod scalar;
pub mod vecc;

pub use scalar::Scalar;
pub use vecc::Vecc;
