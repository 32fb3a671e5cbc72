//! Value types shared by the rasterization pipeline: triangles, pixel
//! coordinates, surface extents, and winding orders.
use vstd::prelude::*;

verus! {

/// Three values of the same kind: vertex indices when a triangle describes
/// geometry, or per-vertex attributes while it is being rasterized.
#[derive(Debug, Copy, Clone)]
pub struct Triangle<T> {
    pub vertices: [T; 3],
}

impl<T> From<[T; 3]> for Triangle<T> {
    fn from(vertices: [T; 3]) -> (r: Self) {
        Triangle { vertices }
    }
}

impl<T> vstd::std_specs::convert::FromSpecImpl<[T; 3]> for Triangle<T> {
    open spec fn obeys_from_spec() -> bool {
        true
    }

    open spec fn from_spec(vertices: [T; 3]) -> Self {
        Triangle { vertices }
    }
}

/// An integer pixel coordinate on a surface, addressed `[0, width) x
/// [0, height)` with the row index increasing downward.
#[derive(Debug, Copy, Clone, PartialEq, Eq, Structural)]
pub struct PixelCoord {
    pub x: u32,
    pub y: u32,
}

/// The extent of a pixel surface or texture.
#[derive(Debug, Copy, Clone, PartialEq, Eq, Structural)]
pub struct Dimensions {
    pub width: u32,
    pub height: u32,
}

impl From<[u32; 2]> for Dimensions {
    fn from(a: [u32; 2]) -> (r: Self) {
        Dimensions { width: a[0], height: a[1] }
    }
}

impl vstd::std_specs::convert::FromSpecImpl<[u32; 2]> for Dimensions {
    open spec fn obeys_from_spec() -> bool {
        true
    }

    open spec fn from_spec(a: [u32; 2]) -> Self {
        Dimensions { width: a@[0], height: a@[1] }
    }
}

/// The direction in which a screen-space triangle's vertices wind.
#[derive(Debug, Copy, Clone, PartialEq, Eq, Hash, Structural)]
pub enum WindingOrder {
    Clockwise,
    CounterClockwise,
}

} // verus!
