//! Geometric value types shared with a native vision library.
//!
//! The library defines a 2D integer point and an axis-aligned integer
//! rectangle, the vocabulary in which an external detection engine reports
//! its results. Coordinates are 64-bit signed integers, the width of the
//! native `long` on the 64-bit platforms the foreign library targets; the
//! byte-for-byte layout contract with the foreign side lives at the call
//! boundary, outside this crate.

pub mod geometry;

pub use geometry::Point;
pub use geometry::Rectangle;
