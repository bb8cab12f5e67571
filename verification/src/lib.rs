//! Generic binary exponentiation ("power by repeated squaring").
//!
//! The library offers four variants of the algorithm, from the most
//! specialized to the most general:
//!
//! - [`power::power_recursive`]: recursive, fixed to multiplication;
//! - [`power::power_accumulate`]: iterative, combines an accumulator with a
//!   power under any associative operation;
//! - [`power::power_semigroup`]: iterative, any associative operation, for
//!   exponents of at least one (no identity element needed);
//! - [`power::power_monoid`]: any associative operation with an identity
//!   element, for any exponent.
//!
//! Operations are injected as capability values implementing the traits in
//! [`traits`]; [`ops`] holds the standard multiplicative and additive
//! instances, and [`matrix`] a small 2x2 matrix type that can serve as an
//! operand.

pub mod integer;
pub mod matrix;
pub mod ops;
pub mod power;
pub mod traits;
