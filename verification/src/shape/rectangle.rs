use vstd::prelude::*;
use crate::render::dual_buffer::{
    written_rebased_indices, written_translated_vertices, AllocationView, ArenaError, DualBuffer,
};
use crate::render::point::{
    clip_point_spec, point2_in_range, point2_sum, Point2D, Point3D, COORD_LIMIT, VERTEX_LIMIT,
};
use crate::render::{vertices_in_range, Color, Vertex};
use crate::shape::{size_in_range, Size};

verus! {

/// A filled axis-aligned rectangle: four local corner vertices and two
/// triangles over them, drawn from the triangle-list arena.
pub struct Rectangle {
    position: Point2D,
    size: Size,
    vertices: Vec<Vertex>,
    buffer_handle: usize,
    dirty: bool,
}

/// The mathematical image of a `Rectangle`.
pub ghost struct RectangleView {
    pub position: Point2D,
    pub size: Size,
    pub vertices: Seq<Vertex>,
    pub buffer_handle: int,
    pub dirty: bool,
}

impl View for Rectangle {
    type V = RectangleView;

    closed spec fn view(&self) -> RectangleView {
        RectangleView {
            position: self.position,
            size: self.size,
            vertices: self.vertices@,
            buffer_handle: self.buffer_handle as int,
            dirty: self.dirty,
        }
    }
}

/// The four local corner positions of a rectangle of size `s`: the corners
/// `(0,0), (0,h), (w,h), (w,0)` of unit space under the size-delta
/// conversion `x' = 2x, y' = -2y`.
pub open spec fn rect_positions_ok(vs: Seq<Vertex>, s: Size) -> bool {
    &&& vs.len() == 4
    &&& vs[0].position.x == 0 && vs[0].position.y == 0 && vs[0].position.z == 0
    &&& vs[1].position.x == 0 && vs[1].position.y == -2 * s.height && vs[1].position.z == 0
    &&& vs[2].position.x == 2 * s.width && vs[2].position.y == -2 * s.height && vs[2].position.z
        == 0
    &&& vs[3].position.x == 2 * s.width && vs[3].position.y == 0 && vs[3].position.z == 0
}

/// The fixed index topology of a rectangle: two triangles.
pub open spec fn rect_indices() -> Seq<u32> {
    seq![0u32, 1u32, 2u32, 0u32, 2u32, 3u32]
}

/// The relation `resize` establishes: the four corners recomputed for the
/// new size, each corner's color kept, everything else kept, the shape
/// dirty.
pub open spec fn rect_resized(pre: RectangleView, post: RectangleView, size: Size) -> bool {
    &&& post.position == pre.position
    &&& post.size == size
    &&& post.buffer_handle == pre.buffer_handle
    &&& post.dirty == true
    &&& rect_positions_ok(post.vertices, size)
    &&& forall|k: int| 0 <= k < 4 ==> #[trigger] post.vertices[k].color == pre.vertices[k].color
}

impl RectangleView {
    /// Four bounded corner vertices, and bounded position and size.
    pub open spec fn wf(&self) -> bool {
        &&& self.vertices.len() == 4
        &&& vertices_in_range(self.vertices, VERTEX_LIMIT)
        &&& point2_in_range(self.position, COORD_LIMIT)
        &&& size_in_range(self.size, COORD_LIMIT)
        &&& 0 <= self.buffer_handle
    }

    /// The shape's reservation in `arena` exists and holds exactly its
    /// vertices.
    pub open spec fn compat(&self, arena: crate::render::dual_buffer::DualBufferView) -> bool {
        &&& self.buffer_handle < arena.allocations.len()
        &&& arena.allocations[self.buffer_handle].num_vertices == self.vertices.len()
    }
}

impl Rectangle {
    /// Reserves 4 vertices and 6 indices, writes the fixed two-triangle
    /// topology, and stores the local corners for the given size with the
    /// initial corner colors (red, green, blue, green). Fails with
    /// `CapacityExceeded`, leaving the arena unchanged, exactly when the
    /// arena lacks room.
    pub fn new(arena: &mut DualBuffer, size: Size) -> (r: Result<Rectangle, ArenaError>)
        requires
            old(arena)@.wf(),
            size_in_range(size, COORD_LIMIT),
        ensures
            final(arena)@.wf(),
            r is Ok <==> 4 <= old(arena)@.max_vertices - old(arena)@.vertices_allocated && 6 <= old(
                arena,
            )@.max_indices - old(arena)@.indices_allocated,
            r is Err ==> final(arena)@ == old(arena)@ && r == Err::<Rectangle, ArenaError>(
                ArenaError::CapacityExceeded,
            ),
            r is Ok ==> {
                let rect = r->Ok_0;
                let a = AllocationView {
                    vertex_offset: old(arena)@.vertices_allocated,
                    num_vertices: 4,
                    index_offset: old(arena)@.indices_allocated,
                    num_indices: 6,
                };
                &&& rect@.wf()
                &&& rect@.compat(final(arena)@)
                &&& rect@.position == (Point2D { x: 0, y: 0 })
                &&& rect@.size == size
                &&& rect@.dirty == true
                &&& rect@.buffer_handle == old(arena)@.allocations.len()
                &&& rect_positions_ok(rect@.vertices, size)
                &&& rect@.vertices[0].color == (Color { r: 0x10000, g: 0, b: 0 })
                &&& rect@.vertices[1].color == (Color { r: 0, g: 0x10000, b: 0 })
                &&& rect@.vertices[2].color == (Color { r: 0, g: 0, b: 0x10000 })
                &&& rect@.vertices[3].color == (Color { r: 0, g: 0x10000, b: 0 })
                &&& final(arena)@.allocations == old(arena)@.allocations.push(a)
                &&& final(arena)@.vertices_allocated == old(arena)@.vertices_allocated + 4
                &&& final(arena)@.indices_allocated == old(arena)@.indices_allocated + 6
                &&& written_rebased_indices(
                    final(arena)@.indices,
                    old(arena)@.indices,
                    a,
                    rect_indices(),
                )
                &&& final(arena)@.vertices == old(arena)@.vertices
                &&& final(arena)@.dirty == true
                &&& final(arena)@.max_vertices == old(arena)@.max_vertices
                &&& final(arena)@.max_indices == old(arena)@.max_indices
            },
    {
        let handle = match arena.allocate(4, 6) {
            Ok(h) => h,
            Err(e) => {
                return Err(e);
            },
        };
        let mut local: Vec<u32> = Vec::new();
        local.push(0);
        local.push(1);
        local.push(2);
        local.push(0);
        local.push(2);
        local.push(3);
        proof {
            assert(local@ =~= rect_indices());
        }
        arena.write_indices(handle, local.as_slice());
        let size3 = Point3D::from_size(size);
        let mut vertices: Vec<Vertex> = Vec::new();
        vertices.push(Vertex { position: Point3D::origin(), color: Color::red() });
        vertices.push(
            Vertex { position: Point3D { x: 0, y: size3.y, z: 0 }, color: Color::green() },
        );
        vertices.push(Vertex { position: size3, color: Color::blue() });
        vertices.push(
            Vertex { position: Point3D { x: size3.x, y: 0, z: 0 }, color: Color::green() },
        );
        Ok(
            Rectangle {
                position: Point2D { x: 0, y: 0 },
                size,
                vertices,
                buffer_handle: handle,
                dirty: true,
            },
        )
    }

    /// Stores the new offset and marks the shape dirty; the arena is not
    /// touched until the next `draw`.
    pub fn set_position(&mut self, position: Point2D)
        requires
            old(self)@.wf(),
            point2_in_range(position, COORD_LIMIT),
        ensures
            final(self)@.wf(),
            final(self)@ == (RectangleView { position, dirty: true, ..old(self)@ }),
    {
        self.position = position;
        self.dirty = true;
    }

    /// Recomputes the four corners from the new size, keeping each corner's
    /// color, and marks the shape dirty.
    pub fn resize(&mut self, size: Size)
        requires
            old(self)@.wf(),
            size_in_range(size, COORD_LIMIT),
        ensures
            final(self)@.wf(),
            rect_resized(old(self)@, final(self)@, size),
    {
        self.size = size;
        let size3 = Point3D::from_size(self.size);
        let c1 = self.vertices[1];
        self.vertices.set(1, Vertex { position: Point3D { x: 0, y: size3.y, z: 0 }, color: c1.color });
        let c2 = self.vertices[2];
        self.vertices.set(2, Vertex { position: size3, color: c2.color });
        let c3 = self.vertices[3];
        self.vertices.set(3, Vertex { position: Point3D { x: size3.x, y: 0, z: 0 }, color: c3.color });
        let c0 = self.vertices[0];
        self.vertices.set(0, Vertex { position: Point3D { x: 0, y: 0, z: 0 }, color: c0.color });
        self.dirty = true;
    }

    /// Overwrites every corner's color and marks the shape dirty.
    pub fn set_color(&mut self, color: Color)
        requires
            old(self)@.wf(),
        ensures
            final(self)@.wf(),
            final(self)@.position == old(self)@.position,
            final(self)@.size == old(self)@.size,
            final(self)@.buffer_handle == old(self)@.buffer_handle,
            final(self)@.dirty == true,
            final(self)@.vertices.len() == old(self)@.vertices.len(),
            forall|k: int|
                0 <= k < old(self)@.vertices.len() ==> #[trigger] final(self)@.vertices[k]
                    == (Vertex { position: old(self)@.vertices[k].position, color }),
    {
        let mut k: usize = 0;
        while k < self.vertices.len()
            invariant
                old(self)@.wf(),
                k <= self.vertices@.len(),
                self.vertices@.len() == old(self)@.vertices.len(),
                self.position == old(self)@.position,
                self.size == old(self)@.size,
                self.buffer_handle as int == old(self)@.buffer_handle,
                self.dirty == old(self)@.dirty,
                forall|j: int|
                    0 <= j < k ==> #[trigger] self.vertices@[j] == (Vertex {
                        position: old(self)@.vertices[j].position,
                        color,
                    }),
                forall|j: int|
                    k <= j < self.vertices@.len() ==> #[trigger] self.vertices@[j] == old(
                        self,
                    )@.vertices[j],
            decreases self.vertices@.len() - k,
        {
            let v = self.vertices[k];
            self.vertices.set(k, Vertex { position: v.position, color });
            k += 1;
        }
        self.dirty = true;
    }

    /// Writes the corners, translated to the parent position plus the
    /// shape's own offset, into the shape's reservation — but only if the
    /// shape is dirty; a clean shape leaves itself and the arena untouched,
    /// so a second `draw` in a row writes nothing.
    pub fn draw(&mut self, arena: &mut DualBuffer, parent_pos: Point2D)
        requires
            old(self)@.wf(),
            old(arena)@.wf(),
            old(self)@.compat(old(arena)@),
            point2_in_range(parent_pos, COORD_LIMIT),
        ensures
            final(self)@.wf(),
            final(arena)@.wf(),
            final(self)@.compat(final(arena)@),
            !old(self)@.dirty ==> *final(self) == *old(self) && *final(arena) == *old(arena),
            old(self)@.dirty ==> {
                &&& final(self)@ == (RectangleView { dirty: false, ..old(self)@ })
                &&& written_translated_vertices(
                    final(arena)@.vertices,
                    old(arena)@.vertices,
                    old(arena)@.allocations[old(self)@.buffer_handle],
                    old(self)@.vertices,
                    clip_point_spec(point2_sum(parent_pos, old(self)@.position)),
                )
                &&& final(arena)@.dirty == true
                &&& final(arena)@.indices == old(arena)@.indices
                &&& final(arena)@.allocations == old(arena)@.allocations
                &&& final(arena)@.vertices_allocated == old(arena)@.vertices_allocated
                &&& final(arena)@.indices_allocated == old(arena)@.indices_allocated
                &&& final(arena)@.max_vertices == old(arena)@.max_vertices
                &&& final(arena)@.max_indices == old(arena)@.max_indices
            },
    {
        if !self.dirty {
            return ;
        }
        self.dirty = false;
        let t = Point3D::from_point(parent_pos.add(self.position));
        arena.write_vertices_with_translation(self.buffer_handle, self.vertices.as_slice(), t);
    }
}

} // verus!
