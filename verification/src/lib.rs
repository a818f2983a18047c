//! Fixed-point colour mathematics: proportions, component sums, chroma and
//! hue geometry over additive RGB triples, free of floating point.
//!
//! The modules stand in the order in which they build on one another.

pub mod arith;
pub mod proportion;
pub mod levels;
pub mod fraction;
pub mod chroma;
pub mod rgb;
pub mod sum_range;
pub mod geometry;
pub mod primary;
pub mod secondary;
pub mod sextant;
pub mod hue;
pub mod attributes;
pub mod laws;
pub mod angle;
pub mod validation;
