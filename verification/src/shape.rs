use vstd::prelude::*;

pub mod lines;
pub mod polygon;
pub mod rectangle;

pub use lines::Lines;
pub use polygon::Polygon;
pub use rectangle::Rectangle;
use lines::{lines_resize_ok, LinesView};
use polygon::PolygonView;
use rectangle::RectangleView;
use crate::render::dual_buffer::{written_translated_vertices, DualBuffer, DualBufferView};
use crate::render::point::{
    clip_point_spec, clip_vector_spec, in_range, lemma_scale_bound, point2_in_range, point2_sum,
    scale_fixed, scale_spec, Point2D, Point3D, COORD_LIMIT, FIXED_ONE,
};
use crate::render::{Color, Vertex};

verus! {

/// A width and height in unit space, as fixed-point values.
#[derive(Clone, Copy, PartialEq, Eq, Structural, Debug)]
pub struct Size {
    pub width: i64,
    pub height: i64,
}

pub open spec fn size_in_range(s: Size, limit: i64) -> bool {
    in_range(s.width as int, limit as int) && in_range(s.height as int, limit as int)
}

/// Both dimensions strictly positive; what scaling an existing shape by a
/// size ratio demands.
pub open spec fn size_positive(s: Size) -> bool {
    0 < s.width && 0 < s.height
}

impl Size {
    /// Component-wise fixed-point product.
    pub fn mul(self, other: Self) -> (r: Self)
        requires
            size_in_range(self, 0x7FFF_FFFF),
            size_in_range(other, 0x7FFF_FFFF),
        ensures
            r.width == scale_spec(self.width as int, other.width as int, FIXED_ONE as int),
            r.height == scale_spec(self.height as int, other.height as int, FIXED_ONE as int),
    {
        proof {
            lemma_scale_bound(self.width as int, other.width as int, FIXED_ONE as int, 0x7FFF_FFFF, 0x7FFF_FFFF);
            lemma_scale_bound(self.height as int, other.height as int, FIXED_ONE as int, 0x7FFF_FFFF, 0x7FFF_FFFF);
        }
        Size {
            width: scale_fixed(self.width, other.width, FIXED_ONE),
            height: scale_fixed(self.height, other.height, FIXED_ONE),
        }
    }

    /// Component-wise fixed-point quotient.
    pub fn div(self, other: Self) -> (r: Self)
        requires
            size_in_range(self, 0x7FFF_FFFF),
            size_positive(other),
        ensures
            r.width == scale_spec(self.width as int, FIXED_ONE as int, other.width as int),
            r.height == scale_spec(self.height as int, FIXED_ONE as int, other.height as int),
    {
        proof {
            lemma_scale_bound(self.width as int, FIXED_ONE as int, other.width as int, 0x7FFF_FFFF, FIXED_ONE as int);
            lemma_scale_bound(self.height as int, FIXED_ONE as int, other.height as int, 0x7FFF_FFFF, FIXED_ONE as int);
        }
        Size {
            width: scale_fixed(self.width, FIXED_ONE, other.width),
            height: scale_fixed(self.height, FIXED_ONE, other.height),
        }
    }

    /// Divides both dimensions by a fixed-point scalar.
    pub fn div_scalar(self, scalar: i64) -> (r: Self)
        requires
            size_in_range(self, 0x7FFF_FFFF_FFFF),
            0 < scalar,
        ensures
            r.width == scale_spec(self.width as int, FIXED_ONE as int, scalar as int),
            r.height == scale_spec(self.height as int, FIXED_ONE as int, scalar as int),
    {
        proof {
            lemma_scale_bound(self.width as int, FIXED_ONE as int, scalar as int, 0x7FFF_FFFF_FFFF, FIXED_ONE as int);
            lemma_scale_bound(self.height as int, FIXED_ONE as int, scalar as int, 0x7FFF_FFFF_FFFF, FIXED_ONE as int);
        }
        Size {
            width: scale_fixed(self.width, FIXED_ONE, scalar),
            height: scale_fixed(self.height, FIXED_ONE, scalar),
        }
    }

    /// Builds a size from pixel dimensions, one fixed-point unit per pixel.
    pub fn from_pixels(width: u32, height: u32) -> (r: Self)
        requires
            width <= 0x100_0000,
            height <= 0x100_0000,
        ensures
            r.width == width * FIXED_ONE,
            r.height == height * FIXED_ONE,
            size_in_range(r, COORD_LIMIT),
    {
        Size { width: (width as i64) * FIXED_ONE, height: (height as i64) * FIXED_ONE }
    }
}

/// The vertex list `post` is `pre` with every color overwritten: what
/// `set_color` does to any shape.
pub open spec fn recolored(pre: Seq<Vertex>, post: Seq<Vertex>, color: Color) -> bool {
    &&& post.len() == pre.len()
    &&& forall|k: int|
        0 <= k < pre.len() ==> #[trigger] post[k] == (Vertex { position: pre[k].position, color })
}

/// The closed set of drawable shapes, dispatched through one interface.
/// Each variant owns its CPU-side vertex mirror and a handle into the
/// arena it was created on; the caller passes that same arena to `draw`
/// (the triangle-list arena for polygons and rectangles, the line-list
/// arena for line sets).
pub enum Shape {
    Lines(Lines),
    Polygon(Polygon),
    Rectangle(Rectangle),
}

impl Shape {
    pub open spec fn wf(&self) -> bool {
        match self {
            Shape::Lines(s) => s@.wf(),
            Shape::Polygon(s) => s@.wf(),
            Shape::Rectangle(s) => s@.wf(),
        }
    }

    /// The shape's reservation exists in `arena` and holds exactly its
    /// vertices.
    pub open spec fn compat(&self, arena: DualBufferView) -> bool {
        match self {
            Shape::Lines(s) => s@.compat(arena),
            Shape::Polygon(s) => s@.compat(arena),
            Shape::Rectangle(s) => s@.compat(arena),
        }
    }

    pub open spec fn spec_dirty(&self) -> bool {
        match self {
            Shape::Lines(s) => s@.dirty,
            Shape::Polygon(s) => s@.dirty,
            Shape::Rectangle(s) => s@.dirty,
        }
    }

    pub open spec fn spec_position(&self) -> Point2D {
        match self {
            Shape::Lines(s) => s@.position,
            Shape::Polygon(s) => s@.position,
            Shape::Rectangle(s) => s@.position,
        }
    }

    pub open spec fn spec_vertices(&self) -> Seq<Vertex> {
        match self {
            Shape::Lines(s) => s@.vertices,
            Shape::Polygon(s) => s@.vertices,
            Shape::Rectangle(s) => s@.vertices,
        }
    }

    pub open spec fn spec_handle(&self) -> int {
        match self {
            Shape::Lines(s) => s@.buffer_handle,
            Shape::Polygon(s) => s@.buffer_handle,
            Shape::Rectangle(s) => s@.buffer_handle,
        }
    }

    /// What `set_position` establishes, variant by variant: the same shape
    /// with the new offset and the dirty flag raised.
    pub open spec fn positioned(pre: Shape, post: Shape, position: Point2D) -> bool {
        match (pre, post) {
            (Shape::Lines(a), Shape::Lines(b)) => b@ == (LinesView {
                position,
                dirty: true,
                ..a@
            }),
            (Shape::Polygon(a), Shape::Polygon(b)) => b@ == (PolygonView {
                position,
                dirty: true,
                ..a@
            }),
            (Shape::Rectangle(a), Shape::Rectangle(b)) => b@ == (RectangleView {
                position,
                dirty: true,
                ..a@
            }),
            _ => false,
        }
    }

    /// What `resize` demands, variant by variant: only scaling a line set
    /// asks for more, since it divides by the current size and keeps the
    /// new size as a later divisor.
    pub open spec fn resize_req(&self, size: Size) -> bool {
        match self {
            Shape::Lines(s) => size_positive(size) && lines_resize_ok(s@.vertices, s@.size, size),
            Shape::Polygon(_) => true,
            Shape::Rectangle(_) => true,
        }
    }

    /// What `resize` establishes, variant by variant: a line set scales
    /// its vertices, a polygon regenerates its rim, a rectangle recomputes
    /// its corners.
    pub open spec fn resized(pre: Shape, post: Shape, size: Size) -> bool {
        match (pre, post) {
            (Shape::Lines(a), Shape::Lines(b)) => lines::lines_scaled(a@, b@, size),
            (Shape::Polygon(a), Shape::Polygon(b)) => polygon::polygon_resized(a@, b@, size),
            (Shape::Rectangle(a), Shape::Rectangle(b)) => rectangle::rect_resized(a@, b@, size),
            _ => false,
        }
    }

    /// What `set_color` establishes, variant by variant: every vertex
    /// recolored, everything else kept, the shape dirty.
    pub open spec fn colored(pre: Shape, post: Shape, color: Color) -> bool {
        match (pre, post) {
            (Shape::Lines(a), Shape::Lines(b)) => {
                &&& b@.position == a@.position
                &&& b@.size == a@.size
                &&& b@.buffer_handle == a@.buffer_handle
                &&& b@.dirty == true
                &&& recolored(a@.vertices, b@.vertices, color)
            },
            (Shape::Polygon(a), Shape::Polygon(b)) => {
                &&& b@.position == a@.position
                &&& b@.size == a@.size
                &&& b@.point_count == a@.point_count
                &&& b@.directions == a@.directions
                &&& b@.buffer_handle == a@.buffer_handle
                &&& b@.dirty == true
                &&& recolored(a@.vertices, b@.vertices, color)
            },
            (Shape::Rectangle(a), Shape::Rectangle(b)) => {
                &&& b@.position == a@.position
                &&& b@.size == a@.size
                &&& b@.buffer_handle == a@.buffer_handle
                &&& b@.dirty == true
                &&& recolored(a@.vertices, b@.vertices, color)
            },
            _ => false,
        }
    }

    /// The translation `draw` applies: line sets translate by the vector
    /// conversion of parent position plus offset, filled shapes by the
    /// point conversion.
    pub open spec fn draw_translation(&self, parent_pos: Point2D) -> Point3D {
        match self {
            Shape::Lines(s) => clip_vector_spec(point2_sum(parent_pos, s@.position)),
            Shape::Polygon(s) => clip_point_spec(point2_sum(parent_pos, s@.position)),
            Shape::Rectangle(s) => clip_point_spec(point2_sum(parent_pos, s@.position)),
        }
    }

    /// What a dirty `draw` establishes: the shape clean and otherwise
    /// unchanged, and its translated vertices written into its reservation.
    pub open spec fn drawn(
        pre: Shape,
        post: Shape,
        pre_arena: DualBufferView,
        post_arena: DualBufferView,
        parent_pos: Point2D,
    ) -> bool {
        &&& match (pre, post) {
            (Shape::Lines(a), Shape::Lines(b)) => b@ == (LinesView { dirty: false, ..a@ }),
            (Shape::Polygon(a), Shape::Polygon(b)) => b@ == (PolygonView { dirty: false, ..a@ }),
            (Shape::Rectangle(a), Shape::Rectangle(b)) => b@ == (RectangleView {
                dirty: false,
                ..a@
            }),
            _ => false,
        }
        &&& written_translated_vertices(
            post_arena.vertices,
            pre_arena.vertices,
            pre_arena.allocations[pre.spec_handle()],
            pre.spec_vertices(),
            pre.draw_translation(parent_pos),
        )
        &&& post_arena.dirty == true
        &&& post_arena.indices == pre_arena.indices
        &&& post_arena.allocations == pre_arena.allocations
        &&& post_arena.vertices_allocated == pre_arena.vertices_allocated
        &&& post_arena.indices_allocated == pre_arena.indices_allocated
        &&& post_arena.max_vertices == pre_arena.max_vertices
        &&& post_arena.max_indices == pre_arena.max_indices
    }

    /// Stores the new offset and marks the shape dirty.
    pub fn set_position(&mut self, position: Point2D)
        requires
            old(self).wf(),
            point2_in_range(position, COORD_LIMIT),
        ensures
            final(self).wf(),
            Shape::positioned(*old(self), *final(self), position),
    {
        match self {
            Shape::Lines(s) => s.set_position(position),
            Shape::Polygon(s) => s.set_position(position),
            Shape::Rectangle(s) => s.set_position(position),
        }
    }

    /// Recomputes the local vertices for the new size and marks the shape
    /// dirty.
    pub fn resize(&mut self, size: Size)
        requires
            old(self).wf(),
            size_in_range(size, COORD_LIMIT),
            old(self).resize_req(size),
        ensures
            final(self).wf(),
            Shape::resized(*old(self), *final(self), size),
    {
        match self {
            Shape::Lines(s) => s.resize(size),
            Shape::Polygon(s) => s.resize(size),
            Shape::Rectangle(s) => s.resize(size),
        }
    }

    /// Whether `resize(size)` may be called now.
    pub fn can_resize(&self, size: Size) -> (r: bool)
        requires
            self.wf(),
        ensures
            r == self.resize_req(size),
    {
        match self {
            Shape::Lines(s) => {
                if size.width > 0 && size.height > 0 {
                    s.can_resize(size)
                } else {
                    false
                }
            },
            Shape::Polygon(_) => true,
            Shape::Rectangle(_) => true,
        }
    }

    /// Overwrites every vertex's color and marks the shape dirty.
    pub fn set_color(&mut self, color: Color)
        requires
            old(self).wf(),
        ensures
            final(self).wf(),
            Shape::colored(*old(self), *final(self), color),
    {
        match self {
            Shape::Lines(s) => s.set_color(color),
            Shape::Polygon(s) => s.set_color(color),
            Shape::Rectangle(s) => s.set_color(color),
        }
    }

    /// Writes the translated local vertices into the shape's reservation
    /// in `arena` if the shape is dirty, and clears the flag; a clean
    /// shape changes nothing, so a second `draw` in a row writes nothing.
    pub fn draw(&mut self, arena: &mut DualBuffer, parent_pos: Point2D)
        requires
            old(self).wf(),
            old(arena)@.wf(),
            old(self).compat(old(arena)@),
            point2_in_range(parent_pos, COORD_LIMIT),
        ensures
            final(self).wf(),
            final(arena)@.wf(),
            final(self).compat(final(arena)@),
            !old(self).spec_dirty() ==> *final(self) == *old(self) && *final(arena) == *old(
                arena,
            ),
            old(self).spec_dirty() ==> Shape::drawn(
                *old(self),
                *final(self),
                old(arena)@,
                final(arena)@,
                parent_pos,
            ),
    {
        match self {
            Shape::Lines(s) => s.draw(arena, parent_pos),
            Shape::Polygon(s) => s.draw(arena, parent_pos),
            Shape::Rectangle(s) => s.draw(arena, parent_pos),
        }
    }
}

} // verus!
