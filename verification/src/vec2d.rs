//! A plain two-component vector over fixed-point coordinates.

use vstd::prelude::*;

verus! {

/// A point or a per-axis rate. The unit of each component depends on where
/// the vector is used: a ball's `position` is in `SUBPIXEL`s, its `direction`
/// in `UNIT`s.
#[derive(Clone, Copy, Debug, PartialEq, Eq, Structural)]
pub struct Vec2d {
    pub x: i64,
    pub y: i64,
}

} // verus!
