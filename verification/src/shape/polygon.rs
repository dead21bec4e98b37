use vstd::prelude::*;
use crate::render::dual_buffer::{
    written_rebased_indices, written_translated_vertices, AllocationView, ArenaError, DualBuffer,
};
use crate::render::point::{
    clip_point_spec, lemma_unit_scale_bound, point2_in_range, point2_sum, scale_fixed, scale_spec,
    Point2D, Point3D, COORD_LIMIT, FIXED_ONE, VERTEX_LIMIT,
};
use crate::render::{vertices_in_range, Color, Vertex};
use crate::shape::{size_in_range, Size};

verus! {

/// A filled convex polygon drawn as a triangle fan from the triangle-list
/// arena: one center vertex at the local origin and one rim vertex per
/// sample of the unit circle.
///
/// The rim directions are the unit-circle samples at the angles
/// `i * 2*pi / point_count - pi / 2` for `i` in `0..point_count`, so the
/// first rim point sits at the top. Sampling the circle is floating-point
/// work and stays with the caller, which hands the samples in as
/// fixed-point pairs; the shape keeps them to regenerate its rim on every
/// resize.
pub struct Polygon {
    position: Point2D,
    size: Size,
    point_count: u8,
    directions: Vec<Point2D>,
    vertices: Vec<Vertex>,
    buffer_handle: usize,
    dirty: bool,
}

/// The mathematical image of a `Polygon`.
pub ghost struct PolygonView {
    pub position: Point2D,
    pub size: Size,
    pub point_count: int,
    pub directions: Seq<Point2D>,
    pub vertices: Seq<Vertex>,
    pub buffer_handle: int,
    pub dirty: bool,
}

impl View for Polygon {
    type V = PolygonView;

    closed spec fn view(&self) -> PolygonView {
        PolygonView {
            position: self.position,
            size: self.size,
            point_count: self.point_count as int,
            directions: self.directions@,
            vertices: self.vertices@,
            buffer_handle: self.buffer_handle as int,
            dirty: self.dirty,
        }
    }
}

/// Rim directions are unit-circle samples: both components within
/// `FIXED_ONE` in magnitude.
pub open spec fn directions_in_range(ds: Seq<Point2D>) -> bool {
    forall|i: int| 0 <= i < ds.len() ==> point2_in_range(#[trigger] ds[i], FIXED_ONE)
}

/// The positions a polygon generates from its directions and size: the
/// center at the local origin, then one rim vertex per direction, each
/// direction scaled component-wise by the size.
pub open spec fn polygon_positions_ok(vs: Seq<Vertex>, ds: Seq<Point2D>, s: Size) -> bool {
    &&& vs.len() == ds.len() + 1
    &&& vs.len() > 0 ==> vs[0].position == (Point3D { x: 0, y: 0, z: 0 })
    &&& forall|i: int|
        1 <= i < vs.len() ==> (#[trigger] vs[i]).position == (Point3D {
            x: scale_spec(ds[i - 1].x as int, s.width as int, FIXED_ONE as int) as i64,
            y: scale_spec(ds[i - 1].y as int, s.height as int, FIXED_ONE as int) as i64,
            z: 0,
        })
}

/// The vertices a polygon generates from its directions and size: the
/// center at the local origin, then one rim vertex per direction, each
/// direction scaled component-wise by the size; every vertex carries the
/// default (white) color.
pub open spec fn polygon_gen_ok(vs: Seq<Vertex>, ds: Seq<Point2D>, s: Size) -> bool {
    &&& vs.len() == ds.len() + 1
    &&& vs.len() > 0 ==> vs[0] == Vertex::origin_spec()
    &&& forall|i: int|
        1 <= i < vs.len() ==> #[trigger] vs[i] == (Vertex {
            position: Point3D {
                x: scale_spec(ds[i - 1].x as int, s.width as int, FIXED_ONE as int) as i64,
                y: scale_spec(ds[i - 1].y as int, s.height as int, FIXED_ONE as int) as i64,
                z: 0,
            },
            color: Color { r: FIXED_ONE, g: FIXED_ONE, b: FIXED_ONE },
        })
}

/// The fan topology over `n` rim points: triple `t` (0-based) is
/// `(0, t, t+1)`, except the first, which closes the fan as `(0, n, 1)`.
pub open spec fn fan_indices(n: int) -> Seq<u32> {
    Seq::new(
        (3 * n) as nat,
        |j: int|
            if j % 3 == 0 {
                0u32
            } else if j % 3 == 1 {
                if j / 3 == 0 {
                    n as u32
                } else {
                    (j / 3) as u32
                }
            } else {
                (j / 3 + 1) as u32
            },
    )
}

/// The relation `resize` establishes: the rim regenerated from the stored
/// directions at the new size (so every vertex is white again), everything
/// else kept, the shape dirty.
pub open spec fn polygon_resized(pre: PolygonView, post: PolygonView, size: Size) -> bool {
    &&& post.position == pre.position
    &&& post.size == size
    &&& post.point_count == pre.point_count
    &&& post.directions == pre.directions
    &&& post.buffer_handle == pre.buffer_handle
    &&& post.dirty == true
    &&& polygon_gen_ok(post.vertices, pre.directions, size)
}

impl PolygonView {
    /// One direction per rim point, one vertex more than directions, all
    /// of them bounded, and a bounded position and size.
    pub open spec fn wf(&self) -> bool {
        &&& 0 <= self.point_count <= 255
        &&& self.directions.len() == self.point_count
        &&& self.vertices.len() == self.point_count + 1
        &&& directions_in_range(self.directions)
        &&& vertices_in_range(self.vertices, VERTEX_LIMIT)
        &&& point2_in_range(self.position, COORD_LIMIT)
        &&& size_in_range(self.size, COORD_LIMIT)
        &&& 0 <= self.buffer_handle
    }

    /// The shape's reservation in `arena` exists and holds exactly its
    /// vertices.
    pub open spec fn compat(&self, arena: crate::render::dual_buffer::DualBufferView) -> bool {
        &&& self.buffer_handle < arena.allocations.len()
        &&& arena.allocations[self.buffer_handle].num_vertices == self.vertices.len()
    }
}

/// Builds the fan vertices for the given directions and size.
fn gen_vertices(directions: &Vec<Point2D>, size: Size) -> (r: Vec<Vertex>)
    requires
        directions@.len() <= 255,
        directions_in_range(directions@),
        size_in_range(size, COORD_LIMIT),
    ensures
        polygon_gen_ok(r@, directions@, size),
        vertices_in_range(r@, VERTEX_LIMIT),
{
    let mut vertices: Vec<Vertex> = Vec::new();
    vertices.push(Vertex::origin());
    let mut i: usize = 0;
    while i < directions.len()
        invariant
            directions@.len() <= 255,
            directions_in_range(directions@),
            size_in_range(size, COORD_LIMIT),
            i <= directions@.len(),
            vertices@.len() == i + 1,
            vertices@[0] == Vertex::origin_spec(),
            forall|j: int|
                1 <= j < vertices@.len() ==> #[trigger] vertices@[j] == (Vertex {
                    position: Point3D {
                        x: scale_spec(
                            directions@[j - 1].x as int,
                            size.width as int,
                            FIXED_ONE as int,
                        ) as i64,
                        y: scale_spec(
                            directions@[j - 1].y as int,
                            size.height as int,
                            FIXED_ONE as int,
                        ) as i64,
                        z: 0,
                    },
                    color: Color { r: FIXED_ONE, g: FIXED_ONE, b: FIXED_ONE },
                }),
            vertices_in_range(vertices@, VERTEX_LIMIT),
        decreases directions@.len() - i,
    {
        let d = directions[i];
        proof {
            assert(point2_in_range(directions@[i as int], FIXED_ONE));
            lemma_unit_scale_bound(d.x as int, size.width as int, COORD_LIMIT as int);
            lemma_unit_scale_bound(d.y as int, size.height as int, COORD_LIMIT as int);
        }
        let x = scale_fixed(d.x, size.width, FIXED_ONE);
        let y = scale_fixed(d.y, size.height, FIXED_ONE);
        vertices.push(Vertex { position: Point3D { x, y, z: 0 }, color: Color::default() });
        i += 1;
    }
    vertices
}

impl Polygon {
    /// Reserves `point_count + 1` vertices and `3 * point_count` indices,
    /// writes the fan topology once, and generates the rim vertices from
    /// the given unit-circle samples and size. Fails with
    /// `CapacityExceeded`, leaving the arena unchanged, exactly when the
    /// arena lacks room.
    pub fn new(
        arena: &mut DualBuffer,
        size: Size,
        point_count: u8,
        directions: Vec<Point2D>,
    ) -> (r: Result<Polygon, ArenaError>)
        requires
            old(arena)@.wf(),
            size_in_range(size, COORD_LIMIT),
            directions@.len() == point_count,
            directions_in_range(directions@),
        ensures
            final(arena)@.wf(),
            r is Ok <==> point_count + 1 <= old(arena)@.max_vertices - old(
                arena,
            )@.vertices_allocated && 3 * point_count <= old(arena)@.max_indices - old(
                arena,
            )@.indices_allocated,
            r is Err ==> final(arena)@ == old(arena)@ && r == Err::<Polygon, ArenaError>(
                ArenaError::CapacityExceeded,
            ),
            r is Ok ==> {
                let poly = r->Ok_0;
                let a = AllocationView {
                    vertex_offset: old(arena)@.vertices_allocated,
                    num_vertices: point_count + 1,
                    index_offset: old(arena)@.indices_allocated,
                    num_indices: 3 * point_count,
                };
                &&& poly@.wf()
                &&& poly@.compat(final(arena)@)
                &&& poly@.position == (Point2D { x: 0, y: 0 })
                &&& poly@.size == size
                &&& poly@.point_count == point_count
                &&& poly@.directions == directions@
                &&& poly@.dirty == true
                &&& poly@.buffer_handle == old(arena)@.allocations.len()
                &&& polygon_gen_ok(poly@.vertices, directions@, size)
                &&& final(arena)@.allocations == old(arena)@.allocations.push(a)
                &&& final(arena)@.vertices_allocated == old(arena)@.vertices_allocated
                    + point_count + 1
                &&& final(arena)@.indices_allocated == old(arena)@.indices_allocated + 3
                    * point_count
                &&& written_rebased_indices(
                    final(arena)@.indices,
                    old(arena)@.indices,
                    a,
                    fan_indices(point_count as int),
                )
                &&& final(arena)@.vertices == old(arena)@.vertices
                &&& final(arena)@.dirty == true
                &&& final(arena)@.max_vertices == old(arena)@.max_vertices
                &&& final(arena)@.max_indices == old(arena)@.max_indices
            },
    {
        let vertex_count: u32 = point_count as u32 + 1;
        let index_count: u32 = 3 * point_count as u32;
        let handle = match arena.allocate(vertex_count, index_count) {
            Ok(h) => h,
            Err(e) => {
                return Err(e);
            },
        };
        let mut local: Vec<u32> = Vec::new();
        let n = point_count as u32;
        let mut i: u32 = 1;
        while i <= n
            invariant
                n <= 255,
                1 <= i <= n + 1,
                local@.len() == 3 * (i - 1),
                forall|j: int|
                    0 <= j < local@.len() ==> #[trigger] local@[j] == fan_indices(n as int)[j],
            decreases n + 1 - i,
        {
            let ghost jbase = 3 * (i - 1) as int;
            local.push(0);
            if i == 1 {
                local.push(n);
            } else {
                local.push(i - 1);
            }
            local.push(i);
            proof {
                assert(jbase % 3 == 0 && (jbase + 1) % 3 == 1 && (jbase + 2) % 3 == 2
                    && jbase / 3 == i - 1 && (jbase + 1) / 3 == i - 1 && (jbase + 2) / 3 == i
                    - 1) by (nonlinear_arith)
                    requires
                        jbase == 3 * (i - 1) as int,
                        1 <= i,
                ;
            }
            i += 1;
        }
        proof {
            assert(local@ =~= fan_indices(point_count as int));
            assert forall|k: int| 0 <= k < local@.len() implies #[trigger] local@[k] < point_count
                + 1 by {
                assert(local@[k] == fan_indices(point_count as int)[k]);
            }
        }
        arena.write_indices(handle, local.as_slice());
        let vertices = gen_vertices(&directions, size);
        Ok(
            Polygon {
                position: Point2D { x: 0, y: 0 },
                size,
                point_count,
                directions,
                vertices,
                buffer_handle: handle,
                dirty: true,
            },
        )
    }

    /// Stores the new offset and marks the shape dirty; the arena is not
    /// touched until the next `draw`.
    pub fn set_position(&mut self, position: Point2D)
        requires
            old(self)@.wf(),
            point2_in_range(position, COORD_LIMIT),
        ensures
            final(self)@.wf(),
            final(self)@ == (PolygonView { position, dirty: true, ..old(self)@ }),
    {
        self.position = position;
        self.dirty = true;
    }

    /// Regenerates every vertex from the stored directions and the new
    /// size and marks the shape dirty. As the rim is rebuilt, every vertex
    /// returns to the default (white) color.
    pub fn resize(&mut self, size: Size)
        requires
            old(self)@.wf(),
            size_in_range(size, COORD_LIMIT),
        ensures
            final(self)@.wf(),
            polygon_resized(old(self)@, final(self)@, size),
    {
        self.size = size;
        self.vertices = gen_vertices(&self.directions, self.size);
        self.dirty = true;
    }

    /// Overwrites every vertex's color (the center too) and marks the
    /// shape dirty.
    pub fn set_color(&mut self, color: Color)
        requires
            old(self)@.wf(),
        ensures
            final(self)@.wf(),
            final(self)@.position == old(self)@.position,
            final(self)@.size == old(self)@.size,
            final(self)@.point_count == old(self)@.point_count,
            final(self)@.directions == old(self)@.directions,
            final(self)@.buffer_handle == old(self)@.buffer_handle,
            final(self)@.dirty == true,
            final(self)@.vertices.len() == old(self)@.vertices.len(),
            forall|k: int|
                0 <= k < old(self)@.vertices.len() ==> #[trigger] final(self)@.vertices[k]
                    == (Vertex { position: old(self)@.vertices[k].position, color }),
    {
        let mut k: usize = 0;
        while k < self.vertices.len()
            invariant
                old(self)@.wf(),
                k <= self.vertices@.len(),
                self.vertices@.len() == old(self)@.vertices.len(),
                self.position == old(self)@.position,
                self.size == old(self)@.size,
                self.point_count == old(self)@.point_count,
                self.directions@ == old(self)@.directions,
                self.buffer_handle as int == old(self)@.buffer_handle,
                self.dirty == old(self)@.dirty,
                forall|j: int|
                    0 <= j < k ==> #[trigger] self.vertices@[j] == (Vertex {
                        position: old(self)@.vertices[j].position,
                        color,
                    }),
                forall|j: int|
                    k <= j < self.vertices@.len() ==> #[trigger] self.vertices@[j] == old(
                        self,
                    )@.vertices[j],
            decreases self.vertices@.len() - k,
        {
            let v = self.vertices[k];
            self.vertices.set(k, Vertex { position: v.position, color });
            k += 1;
        }
        self.dirty = true;
    }

    /// Writes the local vertices, translated to the parent position plus
    /// the shape's own offset, into the shape's reservation — but only if
    /// the shape is dirty; a clean shape leaves itself and the arena
    /// untouched, so a second `draw` in a row writes nothing.
    pub fn draw(&mut self, arena: &mut DualBuffer, parent_pos: Point2D)
        requires
            old(self)@.wf(),
            old(arena)@.wf(),
            old(self)@.compat(old(arena)@),
            point2_in_range(parent_pos, COORD_LIMIT),
        ensures
            final(self)@.wf(),
            final(arena)@.wf(),
            final(self)@.compat(final(arena)@),
            !old(self)@.dirty ==> *final(self) == *old(self) && *final(arena) == *old(arena),
            old(self)@.dirty ==> {
                &&& final(self)@ == (PolygonView { dirty: false, ..old(self)@ })
                &&& written_translated_vertices(
                    final(arena)@.vertices,
                    old(arena)@.vertices,
                    old(arena)@.allocations[old(self)@.buffer_handle],
                    old(self)@.vertices,
                    clip_point_spec(point2_sum(parent_pos, old(self)@.position)),
                )
                &&& final(arena)@.dirty == true
                &&& final(arena)@.indices == old(arena)@.indices
                &&& final(arena)@.allocations == old(arena)@.allocations
                &&& final(arena)@.vertices_allocated == old(arena)@.vertices_allocated
                &&& final(arena)@.indices_allocated == old(arena)@.indices_allocated
                &&& final(arena)@.max_vertices == old(arena)@.max_vertices
                &&& final(arena)@.max_indices == old(arena)@.max_indices
            },
    {
        if !self.dirty {
            return ;
        }
        self.dirty = false;
        let t = Point3D::from_point(parent_pos.add(self.position));
        arena.write_vertices_with_translation(self.buffer_handle, self.vertices.as_slice(), t);
    }
}

} // verus!
