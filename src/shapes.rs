use vstd::prelude::*;
use crate::errors::DrawStatus;

verus! {

/// An axis of rotation.
#[derive(Clone, Copy, Debug, PartialEq, Eq, Structural)]
pub enum Axis {
    XAxis,
    YAxis,
    ZAxis,
}

/// Something that can be drawn and reports how the draw went.
pub trait Draw {
    fn draw(&self) -> DrawStatus;
}

/// Fewest sides of a polygon expanded by the geometry stage.
pub const MIN_POLYGON_SIDES: u32 = 3;

/// Most sides of a polygon expanded by the geometry stage: it emits two
/// vertices for each side and one more pair, at most thirty in all.
pub const MAX_POLYGON_SIDES: u32 = 14;

/// The draw call a shape issues.
#[derive(Clone, Copy, Debug, PartialEq, Eq, Structural)]
pub enum DrawCall {
    /// An indexed triangle draw over `index_count` indices.
    Elements { index_count: i32 },
    /// A single point that the geometry stage expands into a polygon of
    /// `sides` sides.
    PolygonPoint { sides: u32 },
}

/// The draw call that `plan_draw` gives, `None` where it refuses.
pub open spec fn spec_plan(has_geometry: bool, indices: Seq<u32>) -> Option<DrawCall> {
    if !has_geometry {
        if indices.len() <= i32::MAX {
            Some(DrawCall::Elements { index_count: indices.len() as i32 })
        } else {
            None
        }
    } else if indices.len() > 0 && MIN_POLYGON_SIDES <= indices[0] <= MAX_POLYGON_SIDES {
        Some(DrawCall::PolygonPoint { sides: indices[0] })
    } else {
        None
    }
}

/// The draw call for a shape whose program has a geometry stage or not and
/// whose index data is `indices`: without a geometry stage an indexed draw
/// over all the indices; with one, a point expanded into a polygon with the
/// side count stored as the first index. `None` when the indices do not fit
/// the driver's count type, or when a polygon has no side count or one
/// outside `MIN_POLYGON_SIDES` to `MAX_POLYGON_SIDES`.
pub fn plan_draw(has_geometry: bool, indices: &Vec<u32>) -> (r: Option<DrawCall>)
    ensures
        r == spec_plan(has_geometry, indices@),
        !has_geometry ==> (r is Some <==> indices@.len() <= i32::MAX),
        !has_geometry && r is Some ==> r->Some_0 == (DrawCall::Elements {
            index_count: indices@.len() as i32,
        }),
        has_geometry ==> (r is Some <==> indices@.len() > 0 && MIN_POLYGON_SIDES <= indices@[0]
            <= MAX_POLYGON_SIDES),
        has_geometry && r is Some ==> r->Some_0 == (DrawCall::PolygonPoint {
            sides: indices@[0],
        }),
{
    if !has_geometry {
        if indices.len() > i32::MAX as usize {
            None
        } else {
            Some(DrawCall::Elements { index_count: indices.len() as i32 })
        }
    } else if indices.len() == 0 || indices[0] < MIN_POLYGON_SIDES || indices[0] > MAX_POLYGON_SIDES {
        None
    } else {
        Some(DrawCall::PolygonPoint { sides: indices[0] })
    }
}

pub open spec fn spec_primitive_count(c: DrawCall) -> int {
    match c {
        DrawCall::Elements { index_count } => if index_count >= 0 {
            index_count / 3
        } else {
            0
        },
        DrawCall::PolygonPoint { .. } => 1,
    }
}

impl DrawCall {
    /// How many primitives the call submits: whole triangles for an indexed
    /// draw (none for a negative count, which the
    /// driver rejects), one point for a polygon.
    pub fn primitive_count(&self) -> (r: i32)
        ensures
            r == spec_primitive_count(*self),
    {
        match self {
            DrawCall::Elements { index_count } => if *index_count >= 0 {
                *index_count / 3
            } else {
                0
            },
            DrawCall::PolygonPoint { .. } => 1,
        }
    }
}

/// Index data of a triangle.
pub fn triangle_indices() -> (r: Vec<u32>)
    ensures
        r@ == seq![0u32, 1, 2],
{
    vec![0, 1, 2]
}

/// Index data of a square made of two triangles.
pub fn square_indices() -> (r: Vec<u32>)
    ensures
        r@ == seq![0u32, 1, 2, 0, 2, 3],
{
    vec![0, 1, 2, 0, 2, 3]
}

/// Index data of a polygon expanded by the geometry stage: its side count.
pub fn polygon_indices(sides: u32) -> (r: Vec<u32>)
    ensures
        r@ == seq![sides],
{
    vec![sides]
}

} // verus!
