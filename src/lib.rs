//! Floating-point values with a total order, a reflexive equality and a hash
//! that agrees with that equality.
//!
//! A value is held as the raw IEEE-754 bit pattern of the float it stands for
//! (what `to_bits` of the float returns), so every pattern, NaNs and signed zeros
//! included, is a valid value. The order is the real-number order on
//! non-NaN values, with `-0.0` and `+0.0` equal, and every NaN forms a single
//! class above `+inf`.
pub mod binary32;
pub mod binary64;

pub use crate::binary32::OrderedFloat as OrderedF32;
pub use crate::binary64::OrderedFloat as OrderedF64;
