use vstd::prelude::*;

verus! {

/// A 2D point whose coordinates are IEEE-754 single-precision bit patterns.
#[derive(Clone, Copy, Debug, PartialEq, Eq)]
pub struct PointBits {
    pub x_bits: u32,
    pub y_bits: u32,
}

/// The bit pattern of `10.0`: the half-extents reported for any collider
/// whose geometry is not a convex polygon.
pub const FALLBACK_HALF_EXTENT_BITS: u32 = 0x4120_0000;

/// Outline of a collider as seen by a consumer of snapshots.
#[derive(Clone, Debug, PartialEq, Eq)]
pub enum SimulationObjectShape {
    /// Vertices in winding order.
    Polygon(Vec<PointBits>),
    /// Half-width and half-height.
    Rectangle(u32, u32),
}

/// An immutable snapshot of one collider after a step: its world-space
/// translation and its outline.
#[derive(Clone, Debug, PartialEq, Eq)]
pub struct SimulationObject {
    pub x_bits: u32,
    pub y_bits: u32,
    pub shape: SimulationObjectShape,
}

/// The outlines that extraction can report: a polygon, or the fallback
/// rectangle.
pub open spec fn is_reported_shape(s: SimulationObjectShape) -> bool {
    s is Polygon || s == SimulationObjectShape::Rectangle(FALLBACK_HALF_EXTENT_BITS, FALLBACK_HALF_EXTENT_BITS)
}

/// The vertex list of an optional vector of points.
pub open spec fn points_view(polygon: Option<Vec<PointBits>>) -> Option<Seq<PointBits>> {
    match polygon {
        Some(points) => Some(points@),
        None => None,
    }
}

/// `s` is the outline reported for a collider whose geometry is a convex
/// polygon with the vertices `polygon`, or (`None`) any other geometry.
pub open spec fn reports_geometry(polygon: Option<Seq<PointBits>>, s: SimulationObjectShape) -> bool {
    match polygon {
        Some(points) => s matches SimulationObjectShape::Polygon(q) && q@ == points,
        None => s == SimulationObjectShape::Rectangle(FALLBACK_HALF_EXTENT_BITS, FALLBACK_HALF_EXTENT_BITS),
    }
}

/// Turns the vertex list of a convex polygon collider (or `None` for any
/// other geometry) into the snapshot outline.
pub fn classify_shape(polygon: Option<Vec<PointBits>>) -> (r: SimulationObjectShape)
    ensures
        reports_geometry(points_view(polygon), r),
        is_reported_shape(r),
{
    match polygon {
        Some(points) => SimulationObjectShape::Polygon(points),
        None => SimulationObjectShape::Rectangle(FALLBACK_HALF_EXTENT_BITS, FALLBACK_HALF_EXTENT_BITS),
    }
}

} // verus!
