//! Sunflower (Vogel) arrangement of points in the unit disk, in exact
//! arithmetic.
//!
//! Point `k` of `n` sits at the angle `k` times the golden angle and at a
//! radius that grows with the square root of `k`; the last `b` points are
//! placed on the rim to even out the boundary. This crate decides, for each
//! index, whether the point lies on the rim and otherwise gives its squared
//! radius as a fraction of integers. Turning the fraction and the angle into
//! rounded coordinates is left to the caller.

pub mod laws;
pub mod placement;
pub mod radius;

pub use placement::sunflower;
pub use placement::Placement;
pub use radius::calc_radius;
pub use radius::interior_count;
pub use radius::Radius;
