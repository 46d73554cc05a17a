//! The level-geometry data model: typed objects produced once at startup by an
//! outside map loader and consumed by the body factory.

use crate::GEOM_LIMIT;
use vstd::prelude::*;

verus! {

/// Role tag of a level object.
#[derive(Clone, Copy, PartialEq, Eq, Structural, Debug)]
pub enum Role {
    Wall,
    Paddle,
    Ball,
}

/// Shape of a level object: an axis-aligned rectangle or an ellipse, each
/// given by the width and height of its bounding box.
#[derive(Clone, Copy, PartialEq, Eq, Structural, Debug)]
pub enum ObjShape {
    Rect { width: i64, height: i64 },
    Ellipse { width: i64, height: i64 },
}

impl ObjShape {
    /// Width of the shape's bounding box.
    pub open spec fn spec_width(self) -> int {
        match self {
            ObjShape::Rect { width, .. } => width as int,
            ObjShape::Ellipse { width, .. } => width as int,
        }
    }

    /// Height of the shape's bounding box.
    pub open spec fn spec_height(self) -> int {
        match self {
            ObjShape::Rect { height, .. } => height as int,
            ObjShape::Ellipse { height, .. } => height as int,
        }
    }
}

/// One object of the level description: a role tag, a name (used to tell the
/// paddle sides apart), a shape, and the position of the shape's top-left
/// corner in level coordinates.
pub struct GeometryObject {
    pub role: Role,
    pub name: String,
    pub shape: ObjShape,
    pub x: i64,
    pub y: i64,
}

impl GeometryObject {
    /// Coordinates and extents are bounded, so that derived centers, extents
    /// and squared diagonals stay within machine range.
    pub open spec fn wf(self) -> bool {
        &&& -GEOM_LIMIT <= self.x <= GEOM_LIMIT
        &&& -GEOM_LIMIT <= self.y <= GEOM_LIMIT
        &&& 0 <= self.shape.spec_width() <= GEOM_LIMIT
        &&& 0 <= self.shape.spec_height() <= GEOM_LIMIT
    }
}

/// Every object of the sequence is well formed.
pub open spec fn objects_wf(objs: Seq<GeometryObject>) -> bool {
    forall|i: int| 0 <= i < objs.len() ==> (#[trigger] objs[i]).wf()
}

} // verus!
