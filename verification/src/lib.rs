//! A small, verified temperature-conversion core.
//!
//! The library converts integer temperatures between Celsius, Fahrenheit
//! and Kelvin by routing every conversion through a Kelvin intermediate,
//! and keeps the source/target unit selections of the converter state
//! mutually distinct. All arithmetic is on 16-bit signed integers with
//! truncating division, and every function is proved free of overflow
//! within its stated input band.

pub mod convert;
pub mod state;
pub mod unit;
