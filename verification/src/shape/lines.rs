use vstd::prelude::*;
use crate::render::dual_buffer::{
    written_rebased_indices, written_translated_vertices, AllocationView, ArenaError, DualBuffer,
};
use crate::render::point::{
    clip_vector_spec, in_range, is_point_clip, point2_in_range, point2_sum, scale_fixed,
    scale_spec, scale_within, Point2D, Point3D, COORD_LIMIT, VERTEX_LIMIT,
};
use crate::render::{vertex_in_range, vertices_in_range, Color, Vertex};
use crate::shape::{size_in_range, size_positive, Size};

verus! {

/// A set of independent line segments (a line-list primitive): each line
/// owns two consecutive local vertices, drawn from the line-list arena.
pub struct Lines {
    position: Point2D,
    size: Size,
    vertices: Vec<Vertex>,
    buffer_handle: usize,
    dirty: bool,
}

/// The mathematical image of a `Lines` shape.
pub ghost struct LinesView {
    pub position: Point2D,
    pub size: Size,
    pub vertices: Seq<Vertex>,
    pub buffer_handle: int,
    pub dirty: bool,
}

impl View for Lines {
    type V = LinesView;

    closed spec fn view(&self) -> LinesView {
        LinesView {
            position: self.position,
            size: self.size,
            vertices: self.vertices@,
            buffer_handle: self.buffer_handle as int,
            dirty: self.dirty,
        }
    }
}

/// The identity index list `0, 1, ..., n-1`: each vertex of a line list is
/// used by exactly one index, in order.
pub open spec fn identity_indices(n: int) -> Seq<u32> {
    Seq::new(n as nat, |i: int| i as u32)
}

/// Every scaled coordinate stays within `VERTEX_LIMIT`: the precondition
/// of `resize`, checked at run time by `can_resize`.
pub open spec fn lines_resize_ok(vs: Seq<Vertex>, old_size: Size, new_size: Size) -> bool {
    forall|k: int|
        0 <= k < vs.len() ==> {
            &&& in_range(
                scale_spec(
                    (#[trigger] vs[k]).position.x as int,
                    new_size.width as int,
                    old_size.width as int,
                ),
                VERTEX_LIMIT as int,
            )
            &&& in_range(
                scale_spec(vs[k].position.y as int, new_size.height as int, old_size.height as int),
                VERTEX_LIMIT as int,
            )
        }
}

/// The relation `resize` establishes: every local vertex scaled by the
/// ratio of the new size to the old one, colors and everything else kept,
/// the shape dirty.
pub open spec fn lines_scaled(pre: LinesView, post: LinesView, size: Size) -> bool {
    &&& post.position == pre.position
    &&& post.size == size
    &&& post.buffer_handle == pre.buffer_handle
    &&& post.dirty == true
    &&& post.vertices.len() == pre.vertices.len()
    &&& forall|k: int|
        0 <= k < pre.vertices.len() ==> #[trigger] post.vertices[k] == (Vertex {
            position: Point3D {
                x: scale_spec(
                    pre.vertices[k].position.x as int,
                    size.width as int,
                    pre.size.width as int,
                ) as i64,
                y: scale_spec(
                    pre.vertices[k].position.y as int,
                    size.height as int,
                    pre.size.height as int,
                ) as i64,
                z: pre.vertices[k].position.z,
            },
            color: pre.vertices[k].color,
        })
}

impl LinesView {
    /// Two bounded vertices per line, a strictly positive size (later
    /// resizes divide by it) and a bounded position.
    pub open spec fn wf(&self) -> bool {
        &&& vertices_in_range(self.vertices, VERTEX_LIMIT)
        &&& point2_in_range(self.position, COORD_LIMIT)
        &&& size_in_range(self.size, COORD_LIMIT)
        &&& size_positive(self.size)
        &&& 0 <= self.buffer_handle
    }

    /// The shape's reservation in `arena` exists and holds exactly its
    /// vertices.
    pub open spec fn compat(&self, arena: crate::render::dual_buffer::DualBufferView) -> bool {
        &&& self.buffer_handle < arena.allocations.len()
        &&& arena.allocations[self.buffer_handle].num_vertices == self.vertices.len()
    }
}

impl Lines {
    /// Reserves two vertices and two indices per line, writes the identity
    /// index list once, and starts with default vertices at the origin.
    /// Fails with `CapacityExceeded`, leaving the arena unchanged, exactly
    /// when the arena lacks room.
    pub fn new(arena: &mut DualBuffer, size: Size, line_count: usize) -> (r: Result<
        Lines,
        ArenaError,
    >)
        requires
            old(arena)@.wf(),
            size_in_range(size, COORD_LIMIT),
            size_positive(size),
            line_count <= 0x7FFF_FFFF,
        ensures
            final(arena)@.wf(),
            r is Ok <==> 2 * line_count <= old(arena)@.max_vertices - old(
                arena,
            )@.vertices_allocated && 2 * line_count <= old(arena)@.max_indices - old(
                arena,
            )@.indices_allocated,
            r is Err ==> final(arena)@ == old(arena)@ && r == Err::<Lines, ArenaError>(
                ArenaError::CapacityExceeded,
            ),
            r is Ok ==> {
                let lines = r->Ok_0;
                let a = AllocationView {
                    vertex_offset: old(arena)@.vertices_allocated,
                    num_vertices: 2 * line_count,
                    index_offset: old(arena)@.indices_allocated,
                    num_indices: 2 * line_count,
                };
                &&& lines@.wf()
                &&& lines@.compat(final(arena)@)
                &&& lines@.position == (Point2D { x: 0, y: 0 })
                &&& lines@.size == size
                &&& lines@.dirty == true
                &&& lines@.buffer_handle == old(arena)@.allocations.len()
                &&& lines@.vertices.len() == 2 * line_count
                &&& forall|k: int|
                    0 <= k < 2 * line_count ==> #[trigger] lines@.vertices[k]
                        == Vertex::origin_spec()
                &&& final(arena)@.allocations == old(arena)@.allocations.push(a)
                &&& final(arena)@.vertices_allocated == old(arena)@.vertices_allocated + 2
                    * line_count
                &&& final(arena)@.indices_allocated == old(arena)@.indices_allocated + 2
                    * line_count
                &&& written_rebased_indices(
                    final(arena)@.indices,
                    old(arena)@.indices,
                    a,
                    identity_indices(2 * line_count),
                )
                &&& final(arena)@.vertices == old(arena)@.vertices
                &&& final(arena)@.dirty == true
                &&& final(arena)@.max_vertices == old(arena)@.max_vertices
                &&& final(arena)@.max_indices == old(arena)@.max_indices
            },
    {
        let vertex_count: usize = line_count * 2;
        let handle = match arena.allocate(vertex_count as u32, vertex_count as u32) {
            Ok(h) => h,
            Err(e) => {
                return Err(e);
            },
        };
        let mut local: Vec<u32> = Vec::new();
        let mut k: usize = 0;
        while k < vertex_count
            invariant
                k <= vertex_count,
                vertex_count <= 0xFFFF_FFFE,
                local@.len() == k,
                forall|j: int| 0 <= j < k ==> #[trigger] local@[j] == j as u32,
            decreases vertex_count - k,
        {
            local.push(k as u32);
            k += 1;
        }
        proof {
            assert(local@ =~= identity_indices(2 * line_count));
        }
        arena.write_indices(handle, local.as_slice());
        let mut vertices: Vec<Vertex> = Vec::new();
        let mut k: usize = 0;
        while k < vertex_count
            invariant
                k <= vertex_count,
                vertices@.len() == k,
                forall|j: int| 0 <= j < k ==> #[trigger] vertices@[j] == Vertex::origin_spec(),
            decreases vertex_count - k,
        {
            vertices.push(Vertex::origin());
            k += 1;
        }
        Ok(
            Lines {
                position: Point2D { x: 0, y: 0 },
                size,
                vertices,
                buffer_handle: handle,
                dirty: true,
            },
        )
    }

    /// Sets the two endpoints of line `line_index`, converting each from a
    /// unit-space point to a clip-space point; colors stay, the shape
    /// becomes dirty.
    pub fn set_line_position(&mut self, line_index: usize, start: Point2D, end: Point2D)
        requires
            old(self)@.wf(),
            2 * line_index + 1 < old(self)@.vertices.len(),
            point2_in_range(start, COORD_LIMIT),
            point2_in_range(end, COORD_LIMIT),
        ensures
            final(self)@.wf(),
            final(self)@.position == old(self)@.position,
            final(self)@.size == old(self)@.size,
            final(self)@.buffer_handle == old(self)@.buffer_handle,
            final(self)@.dirty == true,
            final(self)@.vertices.len() == old(self)@.vertices.len(),
            is_point_clip(final(self)@.vertices[2 * line_index].position, start),
            is_point_clip(final(self)@.vertices[2 * line_index + 1].position, end),
            final(self)@.vertices[2 * line_index].color == old(self)@.vertices[2
                * line_index].color,
            final(self)@.vertices[2 * line_index + 1].color == old(self)@.vertices[2 * line_index
                + 1].color,
            forall|k: int|
                0 <= k < old(self)@.vertices.len() && k != 2 * line_index && k != 2 * line_index
                    + 1 ==> #[trigger] final(self)@.vertices[k] == old(self)@.vertices[k],
    {
        let _n = self.vertices.len();
        let i = line_index * 2;
        let v0 = self.vertices[i];
        self.vertices.set(i, Vertex { position: Point3D::from_point(start), color: v0.color });
        let v1 = self.vertices[i + 1];
        self.vertices.set(i + 1, Vertex { position: Point3D::from_point(end), color: v1.color });
        self.dirty = true;
    }

    /// Sets the color of both endpoints of line `line_index` and marks the
    /// shape dirty.
    pub fn set_line_color(&mut self, line_index: usize, color: Color)
        requires
            old(self)@.wf(),
            2 * line_index + 1 < old(self)@.vertices.len(),
        ensures
            final(self)@.wf(),
            final(self)@.position == old(self)@.position,
            final(self)@.size == old(self)@.size,
            final(self)@.buffer_handle == old(self)@.buffer_handle,
            final(self)@.dirty == true,
            final(self)@.vertices.len() == old(self)@.vertices.len(),
            final(self)@.vertices[2 * line_index] == (Vertex {
                position: old(self)@.vertices[2 * line_index].position,
                color,
            }),
            final(self)@.vertices[2 * line_index + 1] == (Vertex {
                position: old(self)@.vertices[2 * line_index + 1].position,
                color,
            }),
            forall|k: int|
                0 <= k < old(self)@.vertices.len() && k != 2 * line_index && k != 2 * line_index
                    + 1 ==> #[trigger] final(self)@.vertices[k] == old(self)@.vertices[k],
    {
        let _n = self.vertices.len();
        let i = line_index * 2;
        let v0 = self.vertices[i];
        self.vertices.set(i, Vertex { position: v0.position, color });
        let v1 = self.vertices[i + 1];
        self.vertices.set(i + 1, Vertex { position: v1.position, color });
        self.dirty = true;
    }

    /// Stores the new offset and marks the shape dirty; the arena is not
    /// touched until the next `draw`.
    pub fn set_position(&mut self, position: Point2D)
        requires
            old(self)@.wf(),
            point2_in_range(position, COORD_LIMIT),
        ensures
            final(self)@.wf(),
            final(self)@ == (LinesView { position, dirty: true, ..old(self)@ }),
    {
        self.position = position;
        self.dirty = true;
    }

    /// Whether `resize(size)` may be called now: every local coordinate,
    /// scaled by the ratio of the new size to the current one, must stay
    /// within `VERTEX_LIMIT`.
    pub fn can_resize(&self, size: Size) -> (r: bool)
        requires
            self@.wf(),
        ensures
            r == lines_resize_ok(self@.vertices, self@.size, size),
    {
        let mut k: usize = 0;
        while k < self.vertices.len()
            invariant
                self@.wf(),
                k <= self@.vertices.len(),
                forall|j: int|
                    0 <= j < k ==> {
                        &&& in_range(
                            scale_spec(
                                (#[trigger] self@.vertices[j]).position.x as int,
                                size.width as int,
                                self@.size.width as int,
                            ),
                            VERTEX_LIMIT as int,
                        )
                        &&& in_range(
                            scale_spec(
                                self@.vertices[j].position.y as int,
                                size.height as int,
                                self@.size.height as int,
                            ),
                            VERTEX_LIMIT as int,
                        )
                    },
            decreases self@.vertices.len() - k,
        {
            let v = self.vertices[k];
            if !scale_within(v.position.x, size.width, self.size.width, VERTEX_LIMIT) {
                return false;
            }
            if !scale_within(v.position.y, size.height, self.size.height, VERTEX_LIMIT) {
                return false;
            }
            k += 1;
        }
        true
    }

    /// Scales every local vertex by the ratio of the new size to the
    /// current one (the z coordinate is untouched), stores the new size and
    /// marks the shape dirty.
    pub fn resize(&mut self, size: Size)
        requires
            old(self)@.wf(),
            size_in_range(size, COORD_LIMIT),
            size_positive(size),
            lines_resize_ok(old(self)@.vertices, old(self)@.size, size),
        ensures
            final(self)@.wf(),
            final(self)@.position == old(self)@.position,
            final(self)@.size == size,
            final(self)@.buffer_handle == old(self)@.buffer_handle,
            final(self)@.dirty == true,
            final(self)@.vertices.len() == old(self)@.vertices.len(),
            lines_scaled(old(self)@, final(self)@, size),
    {
        let old_size = self.size;
        self.size = size;
        let mut k: usize = 0;
        while k < self.vertices.len()
            invariant
                old(self)@.wf(),
                size_in_range(size, COORD_LIMIT),
                size_positive(size),
                size_positive(old_size),
                old_size == old(self)@.size,
                lines_resize_ok(old(self)@.vertices, old_size, size),
                k <= self.vertices@.len(),
                self.vertices@.len() == old(self)@.vertices.len(),
                self.position == old(self)@.position,
                self.size == size,
                self.buffer_handle as int == old(self)@.buffer_handle,
                self.dirty == old(self)@.dirty,
                forall|j: int|
                    k <= j < self.vertices@.len() ==> #[trigger] self.vertices@[j] == old(
                        self,
                    )@.vertices[j],
                forall|j: int|
                    0 <= j < k ==> #[trigger] self.vertices@[j] == (Vertex {
                        position: Point3D {
                            x: scale_spec(
                                old(self)@.vertices[j].position.x as int,
                                size.width as int,
                                old_size.width as int,
                            ) as i64,
                            y: scale_spec(
                                old(self)@.vertices[j].position.y as int,
                                size.height as int,
                                old_size.height as int,
                            ) as i64,
                            z: old(self)@.vertices[j].position.z,
                        },
                        color: old(self)@.vertices[j].color,
                    }),
                forall|j: int|
                    0 <= j < k ==> vertex_in_range(#[trigger] self.vertices@[j], VERTEX_LIMIT),
            decreases self.vertices@.len() - k,
        {
            let v = self.vertices[k];
            let x = scale_fixed(v.position.x, size.width, old_size.width);
            let y = scale_fixed(v.position.y, size.height, old_size.height);
            self.vertices.set(
                k,
                Vertex { position: Point3D { x, y, z: v.position.z }, color: v.color },
            );
            k += 1;
        }
        self.dirty = true;
    }

    /// Overwrites every vertex's color and marks the shape dirty.
    pub fn set_color(&mut self, color: Color)
        requires
            old(self)@.wf(),
        ensures
            final(self)@.wf(),
            final(self)@.position == old(self)@.position,
            final(self)@.size == old(self)@.size,
            final(self)@.buffer_handle == old(self)@.buffer_handle,
            final(self)@.dirty == true,
            final(self)@.vertices.len() == old(self)@.vertices.len(),
            forall|k: int|
                0 <= k < old(self)@.vertices.len() ==> #[trigger] final(self)@.vertices[k]
                    == (Vertex { position: old(self)@.vertices[k].position, color }),
    {
        let mut k: usize = 0;
        while k < self.vertices.len()
            invariant
                old(self)@.wf(),
                k <= self.vertices@.len(),
                self.vertices@.len() == old(self)@.vertices.len(),
                self.position == old(self)@.position,
                self.size == old(self)@.size,
                self.buffer_handle as int == old(self)@.buffer_handle,
                self.dirty == old(self)@.dirty,
                forall|j: int|
                    0 <= j < k ==> #[trigger] self.vertices@[j] == (Vertex {
                        position: old(self)@.vertices[j].position,
                        color,
                    }),
                forall|j: int|
                    k <= j < self.vertices@.len() ==> #[trigger] self.vertices@[j] == old(
                        self,
                    )@.vertices[j],
            decreases self.vertices@.len() - k,
        {
            let v = self.vertices[k];
            self.vertices.set(k, Vertex { position: v.position, color });
            k += 1;
        }
        self.dirty = true;
    }

    /// Writes the local vertices, translated by the clip-space delta of the
    /// parent position plus the shape's own offset, into the shape's
    /// reservation — but only if the shape is dirty; a clean shape leaves
    /// itself and the arena untouched, so a second `draw` in a row writes
    /// nothing.
    pub fn draw(&mut self, arena: &mut DualBuffer, parent_pos: Point2D)
        requires
            old(self)@.wf(),
            old(arena)@.wf(),
            old(self)@.compat(old(arena)@),
            point2_in_range(parent_pos, COORD_LIMIT),
        ensures
            final(self)@.wf(),
            final(arena)@.wf(),
            final(self)@.compat(final(arena)@),
            !old(self)@.dirty ==> *final(self) == *old(self) && *final(arena) == *old(arena),
            old(self)@.dirty ==> {
                &&& final(self)@ == (LinesView { dirty: false, ..old(self)@ })
                &&& written_translated_vertices(
                    final(arena)@.vertices,
                    old(arena)@.vertices,
                    old(arena)@.allocations[old(self)@.buffer_handle],
                    old(self)@.vertices,
                    clip_vector_spec(point2_sum(parent_pos, old(self)@.position)),
                )
                &&& final(arena)@.dirty == true
                &&& final(arena)@.indices == old(arena)@.indices
                &&& final(arena)@.allocations == old(arena)@.allocations
                &&& final(arena)@.vertices_allocated == old(arena)@.vertices_allocated
                &&& final(arena)@.indices_allocated == old(arena)@.indices_allocated
                &&& final(arena)@.max_vertices == old(arena)@.max_vertices
                &&& final(arena)@.max_indices == old(arena)@.max_indices
            },
    {
        if !self.dirty {
            return ;
        }
        self.dirty = false;
        let t = Point3D::wgpu_vector(parent_pos.add(self.position));
        arena.write_vertices_with_translation(self.buffer_handle, self.vertices.as_slice(), t);
    }
}

} // verus!
