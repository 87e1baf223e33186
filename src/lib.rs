//! Descriptive statistics over samples of 64-bit floating-point values.
//!
//! Values are handed to this library as their IEEE 754 bit patterns
//! (`f64::to_bits`), so that every selection it makes can be stated and
//! proved over plain integers.
pub mod order;
pub mod median;
