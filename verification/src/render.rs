use vstd::prelude::*;

pub mod color;
pub mod dual_buffer;
pub mod point;
pub mod renderer;

pub use color::Color;
pub use dual_buffer::DualBuffer;
pub use point::{Point2D, Point3D};
pub use renderer::Renderer;

use crate::render::point::{in_range, FIXED_ONE, VERTEX_LIMIT};

verus! {

/// A vertex as the GPU pipelines consume it: a clip-space position and a
/// linear color, copied by value.
#[derive(Clone, Copy, PartialEq, Eq, Structural, Debug)]
pub struct Vertex {
    pub position: Point3D,
    pub color: Color,
}

/// The position every coordinate of which stays within `limit`.
pub open spec fn vertex_in_range(v: Vertex, limit: i64) -> bool {
    &&& in_range(v.position.x as int, limit as int)
    &&& in_range(v.position.y as int, limit as int)
    &&& in_range(v.position.z as int, limit as int)
}

pub open spec fn vertices_in_range(s: Seq<Vertex>, limit: i64) -> bool {
    forall|i: int| 0 <= i < s.len() ==> vertex_in_range(#[trigger] s[i], limit)
}

impl Vertex {
    /// A vertex at the origin with the default (white) color, as a value.
    pub open spec fn origin_spec() -> Vertex {
        Vertex {
            position: Point3D { x: 0, y: 0, z: 0 },
            color: Color { r: FIXED_ONE, g: FIXED_ONE, b: FIXED_ONE },
        }
    }

    /// A vertex at the origin with the default (white) color.
    pub fn origin() -> (v: Self)
        ensures
            v == Vertex::origin_spec(),
            vertex_in_range(v, VERTEX_LIMIT),
    {
        Vertex { position: Point3D::origin(), color: Color::default() }
    }

    /// The all-zero vertex value.
    pub open spec fn zeroed_spec() -> Vertex {
        Vertex { position: Point3D { x: 0, y: 0, z: 0 }, color: Color { r: 0, g: 0, b: 0 } }
    }

    /// The all-zero vertex the arena mirrors are filled with.
    pub fn zeroed() -> (v: Self)
        ensures
            v == Vertex::zeroed_spec(),
    {
        Vertex { position: Point3D { x: 0, y: 0, z: 0 }, color: Color { r: 0, g: 0, b: 0 } }
    }
}

impl Default for Vertex {
    /// Same as `Vertex::origin`.
    fn default() -> (v: Self)
        ensures
            v.position.x == 0 && v.position.y == 0 && v.position.z == 0,
            v.color == (Color { r: FIXED_ONE, g: FIXED_ONE, b: FIXED_ONE }),
    {
        Vertex::origin()
    }
}

} // verus!
