//! A dual-strand integer: a machine `i64` strand that wraps on overflow, carried
//! together with an exact strand of arbitrary precision that never overflows.
//!
//! Arithmetic propagates both strands; comparison, collapse and narrowing consult
//! the exact strand only, so an overflow on the machine strand is always visible
//! and never trusted.

pub mod arith;
pub mod exact;
pub mod machine;
pub mod text;
pub mod mobius;
pub mod compare;
pub mod laws;

pub use exact::ExactInt;
pub use mobius::{Mi, MobiusInteger, OverflowError};
