//! A generic complex-number value type, with arithmetic, text and algebraic
//! laws over the signed machine integers.

pub mod algebra;
pub mod complex;
pub mod decimal;
pub mod gaussian;
pub mod integers;
pub mod scalar;

pub use crate::complex::Complex;
pub use crate::scalar::Scalar;
