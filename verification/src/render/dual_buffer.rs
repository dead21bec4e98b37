use vstd::prelude::*;
use crate::render::point::{in_range, is_sum3, Point3D, VERTEX_LIMIT};
use crate::render::Vertex;

verus! {

/// The error an arena reports: a reservation asked for more vertices or
/// indices than the fixed capacities still hold.
#[derive(Clone, Copy, PartialEq, Eq, Structural, Debug)]
pub enum ArenaError {
    CapacityExceeded,
}

/// One reserved sub-range of an arena's vertex and index buffers.
/// Reservations are permanent: they are never freed, resized or moved.
#[derive(Clone, Copy)]
struct Allocation {
    vertex_offset: u32,
    num_vertices: u32,
    index_offset: u32,
    num_indices: u32,
}

/// The mathematical image of one `Allocation`.
pub ghost struct AllocationView {
    pub vertex_offset: int,
    pub num_vertices: int,
    pub index_offset: int,
    pub num_indices: int,
}

impl View for Allocation {
    type V = AllocationView;

    closed spec fn view(&self) -> AllocationView {
        AllocationView {
            vertex_offset: self.vertex_offset as int,
            num_vertices: self.num_vertices as int,
            index_offset: self.index_offset as int,
            num_indices: self.num_indices as int,
        }
    }
}

/// The mathematical image of a `DualBuffer`: the two CPU mirrors, the fixed
/// capacities, the allocation cursors, the reservations and the dirty flag.
pub ghost struct DualBufferView {
    pub vertices: Seq<Vertex>,
    pub indices: Seq<u32>,
    pub max_vertices: int,
    pub vertices_allocated: int,
    pub max_indices: int,
    pub indices_allocated: int,
    pub allocations: Seq<AllocationView>,
    pub dirty: bool,
}

/// Counts and offsets of one reservation are non-negative.
pub open spec fn alloc_counts_ok(a: AllocationView) -> bool {
    &&& 0 <= a.vertex_offset
    &&& 0 <= a.num_vertices
    &&& 0 <= a.index_offset
    &&& 0 <= a.num_indices
}

/// Reservation `i` starts exactly where its predecessor ends (at zero for
/// the first one), in both the vertex and the index dimension.
pub open spec fn alloc_chained(allocs: Seq<AllocationView>, i: int) -> bool {
    &&& allocs[i].vertex_offset == if i == 0 {
        0int
    } else {
        allocs[i - 1].vertex_offset + allocs[i - 1].num_vertices
    }
    &&& allocs[i].index_offset == if i == 0 {
        0int
    } else {
        allocs[i - 1].index_offset + allocs[i - 1].num_indices
    }
}

impl DualBufferView {
    /// Well-formedness: the mirrors are exactly as long as the capacities,
    /// the cursors stay within them, and the reservations form one gapless
    /// chain from zero up to the cursors.
    pub open spec fn wf(&self) -> bool {
        &&& self.vertices.len() == self.max_vertices
        &&& self.indices.len() == self.max_indices
        &&& 0 <= self.vertices_allocated <= self.max_vertices <= u32::MAX
        &&& 0 <= self.indices_allocated <= self.max_indices <= u32::MAX
        &&& forall|i: int|
            0 <= i < self.allocations.len() ==> alloc_counts_ok(#[trigger] self.allocations[i])
        &&& forall|i: int|
            0 <= i < self.allocations.len() ==> #[trigger] alloc_chained(self.allocations, i)
        &&& if self.allocations.len() == 0 {
            self.vertices_allocated == 0 && self.indices_allocated == 0
        } else {
            let last = self.allocations[self.allocations.len() - 1];
            self.vertices_allocated == last.vertex_offset + last.num_vertices
                && self.indices_allocated == last.index_offset + last.num_indices
        }
    }

    /// Neither dimension has anything reserved.
    pub open spec fn is_empty(&self) -> bool {
        self.vertices_allocated == 0 || self.indices_allocated == 0
    }
}

/// Within one chain, the end of reservation `i` never passes the start of a
/// later reservation `j`.
pub proof fn lemma_alloc_ordered(b: DualBufferView, i: int, j: int)
    requires
        b.wf(),
        0 <= i < j < b.allocations.len(),
    ensures
        b.allocations[i].vertex_offset + b.allocations[i].num_vertices
            <= b.allocations[j].vertex_offset,
        b.allocations[i].index_offset + b.allocations[i].num_indices
            <= b.allocations[j].index_offset,
    decreases j - i,
{
    assert(alloc_chained(b.allocations, j));
    if j == i + 1 {
    } else {
        lemma_alloc_ordered(b, i, j - 1);
        assert(alloc_counts_ok(b.allocations[j - 1]));
    }
}

/// Every reservation lies inside the allocated prefix of the buffers.
pub proof fn lemma_alloc_within(b: DualBufferView, i: int)
    requires
        b.wf(),
        0 <= i < b.allocations.len(),
    ensures
        b.allocations[i].vertex_offset + b.allocations[i].num_vertices <= b.vertices_allocated,
        b.allocations[i].index_offset + b.allocations[i].num_indices <= b.indices_allocated,
{
    let last = b.allocations.len() - 1;
    if i < last {
        lemma_alloc_ordered(b, i, last);
        assert(alloc_counts_ok(b.allocations[last]));
    }
}

/// The ranges of two distinct reservations are disjoint, in both the vertex
/// and the index dimension: the arena never hands the same slot out twice.
pub proof fn lemma_allocations_disjoint(b: DualBufferView, i: int, j: int)
    requires
        b.wf(),
        0 <= i < b.allocations.len(),
        0 <= j < b.allocations.len(),
        i != j,
    ensures
        b.allocations[i].vertex_offset + b.allocations[i].num_vertices
            <= b.allocations[j].vertex_offset || b.allocations[j].vertex_offset
            + b.allocations[j].num_vertices <= b.allocations[i].vertex_offset,
        b.allocations[i].index_offset + b.allocations[i].num_indices
            <= b.allocations[j].index_offset || b.allocations[j].index_offset
            + b.allocations[j].num_indices <= b.allocations[i].index_offset,
{
    if i < j {
        lemma_alloc_ordered(b, i, j);
    } else {
        lemma_alloc_ordered(b, j, i);
    }
}

/// Rebasing keeps indices globally valid: every index a `write_indices`
/// stores for a reservation names a vertex inside the allocated prefix of
/// the vertex buffer, so the whole index buffer can be drawn as one range.
pub proof fn lemma_rebased_indices_in_bounds(
    b: DualBufferView,
    new_i: Seq<u32>,
    handle: int,
    local: Seq<u32>,
)
    requires
        b.wf(),
        0 <= handle < b.allocations.len(),
        forall|k: int|
            0 <= k < local.len() ==> #[trigger] local[k] < b.allocations[handle].num_vertices,
        local.len() == b.allocations[handle].num_indices,
        written_rebased_indices(new_i, b.indices, b.allocations[handle], local),
    ensures
        forall|k: int|
            b.allocations[handle].index_offset <= k < b.allocations[handle].index_offset
                + local.len() ==> #[trigger] new_i[k] < b.vertices_allocated,
{
    lemma_alloc_within(b, handle);
    let a = b.allocations[handle];
    assert forall|k: int|
        a.index_offset <= k < a.index_offset + local.len() implies #[trigger] new_i[k]
        < b.vertices_allocated by {
        assert(local[k - a.index_offset] < a.num_vertices);
    }
}

/// `dst` is `src` moved by `t`, with the color kept.
pub open spec fn is_translated(dst: Vertex, src: Vertex, t: Point3D) -> bool {
    &&& is_sum3(dst.position, src.position, t)
    &&& dst.color == src.color
}

/// The new vertex mirror holds the translation of `src` inside the range of
/// reservation `a` and is untouched everywhere else.
pub open spec fn written_translated_vertices(
    new_v: Seq<Vertex>,
    old_v: Seq<Vertex>,
    a: AllocationView,
    src: Seq<Vertex>,
    t: Point3D,
) -> bool {
    &&& new_v.len() == old_v.len()
    &&& forall|k: int|
        a.vertex_offset <= k < a.vertex_offset + src.len() ==> is_translated(
            #[trigger] new_v[k],
            src[k - a.vertex_offset],
            t,
        )
    &&& forall|k: int|
        0 <= k < old_v.len() && !(a.vertex_offset <= k < a.vertex_offset + src.len())
            ==> #[trigger] new_v[k] == old_v[k]
}

/// The new index mirror holds `local` rebased by the reservation's vertex
/// offset inside the range of reservation `a` and is untouched elsewhere.
pub open spec fn written_rebased_indices(
    new_i: Seq<u32>,
    old_i: Seq<u32>,
    a: AllocationView,
    local: Seq<u32>,
) -> bool {
    &&& new_i.len() == old_i.len()
    &&& forall|k: int|
        a.index_offset <= k < a.index_offset + local.len() ==> #[trigger] new_i[k] == local[
            k - a.index_offset
        ] + a.vertex_offset
    &&& forall|k: int|
        0 <= k < old_i.len() && !(a.index_offset <= k < a.index_offset + local.len())
            ==> #[trigger] new_i[k] == old_i[k]
}

/// Holds and controls access to a vertex buffer and an index buffer of
/// fixed capacity: a bump allocator hands out permanent sub-ranges, writes
/// land in CPU-side mirrors, and a dirty flag says whether the mirrors must
/// be uploaded before the next draw.
pub struct DualBuffer {
    vertices: Vec<Vertex>,
    max_vertices: u32,
    vertices_allocated: u32,
    indices: Vec<u32>,
    max_indices: u32,
    indices_allocated: u32,
    allocations: Vec<Allocation>,
    dirty: bool,
}

impl View for DualBuffer {
    type V = DualBufferView;

    closed spec fn view(&self) -> DualBufferView {
        DualBufferView {
            vertices: self.vertices@,
            indices: self.indices@,
            max_vertices: self.max_vertices as int,
            vertices_allocated: self.vertices_allocated as int,
            max_indices: self.max_indices as int,
            indices_allocated: self.indices_allocated as int,
            allocations: Seq::new(self.allocations@.len(), |i: int| self.allocations@[i]@),
            dirty: self.dirty,
        }
    }
}

impl DualBuffer {
    /// A new arena with the given fixed capacities; the mirrors are
    /// zero-initialized and nothing is reserved or dirty.
    pub fn new(max_vertices: u32, max_indices: u32) -> (r: DualBuffer)
        ensures
            r@.wf(),
            r@.max_vertices == max_vertices,
            r@.max_indices == max_indices,
            r@.vertices_allocated == 0,
            r@.indices_allocated == 0,
            r@.allocations.len() == 0,
            r@.dirty == false,
            forall|k: int|
                0 <= k < max_vertices ==> #[trigger] r@.vertices[k] == Vertex::zeroed_spec(),
            forall|k: int| 0 <= k < max_indices ==> #[trigger] r@.indices[k] == 0u32,
    {
        let mut vertices: Vec<Vertex> = Vec::new();
        let mut k: u32 = 0;
        while k < max_vertices
            invariant
                k <= max_vertices,
                vertices@.len() == k,
                forall|j: int| 0 <= j < k ==> #[trigger] vertices@[j] == Vertex::zeroed_spec(),
            decreases max_vertices - k,
        {
            vertices.push(Vertex::zeroed());
            k += 1;
        }
        let mut indices: Vec<u32> = Vec::new();
        let mut k: u32 = 0;
        while k < max_indices
            invariant
                k <= max_indices,
                indices@.len() == k,
                forall|j: int| 0 <= j < k ==> #[trigger] indices@[j] == 0u32,
            decreases max_indices - k,
        {
            indices.push(0);
            k += 1;
        }
        DualBuffer {
            vertices,
            max_vertices,
            vertices_allocated: 0,
            indices,
            max_indices,
            indices_allocated: 0,
            allocations: Vec::new(),
            dirty: false,
        }
    }

    /// True when either dimension has no reservation yet; such an arena has
    /// nothing to upload and nothing to draw.
    pub fn is_empty(&self) -> (r: bool)
        ensures
            r == self@.is_empty(),
    {
        if self.vertices_allocated == 0 || self.indices_allocated == 0 {
            true
        } else {
            false
        }
    }

    /// How many indices are reserved; a draw call covers exactly this
    /// prefix of the index buffer.
    pub fn indices_len(&self) -> (r: u32)
        ensures
            r == self@.indices_allocated,
    {
        self.indices_allocated
    }

    /// How many vertices are reserved; an upload covers at least this
    /// prefix of the vertex mirror.
    pub fn vertices_len(&self) -> (r: u32)
        ensures
            r == self@.vertices_allocated,
    {
        self.vertices_allocated
    }

    /// Whether the mirrors have diverged from the GPU buffers since the
    /// last upload.
    pub fn is_dirty(&self) -> (r: bool)
        ensures
            r == self@.dirty,
    {
        self.dirty
    }

    /// The vertex mirror; what an upload copies to the GPU vertex buffer.
    pub fn vertices(&self) -> (r: &Vec<Vertex>)
        ensures
            r@ == self@.vertices,
    {
        &self.vertices
    }

    /// The index mirror; what an upload copies to the GPU index buffer.
    pub fn indices(&self) -> (r: &Vec<u32>)
        ensures
            r@ == self@.indices,
    {
        &self.indices
    }

    /// Reserves `num_vertices` and `num_indices` slots and returns a stable
    /// handle to the reservation. Fails with `CapacityExceeded`, changing
    /// nothing, exactly when either request passes the remaining capacity.
    pub fn allocate(&mut self, num_vertices: u32, num_indices: u32) -> (r: Result<usize, ArenaError>)
        requires
            old(self)@.wf(),
        ensures
            final(self)@.wf(),
            r is Ok <==> num_vertices <= old(self)@.max_vertices - old(self)@.vertices_allocated
                && num_indices <= old(self)@.max_indices - old(self)@.indices_allocated,
            r is Err ==> *final(self) == *old(self) && r == Err::<usize, ArenaError>(
                ArenaError::CapacityExceeded,
            ),
            r is Ok ==> {
                &&& r->Ok_0 == old(self)@.allocations.len()
                &&& final(self)@.allocations == old(self)@.allocations.push(
                    AllocationView {
                        vertex_offset: old(self)@.vertices_allocated,
                        num_vertices: num_vertices as int,
                        index_offset: old(self)@.indices_allocated,
                        num_indices: num_indices as int,
                    },
                )
                &&& final(self)@.vertices_allocated == old(self)@.vertices_allocated
                    + num_vertices
                &&& final(self)@.indices_allocated == old(self)@.indices_allocated + num_indices
            },
            final(self)@.vertices == old(self)@.vertices,
            final(self)@.indices == old(self)@.indices,
            final(self)@.max_vertices == old(self)@.max_vertices,
            final(self)@.max_indices == old(self)@.max_indices,
            final(self)@.dirty == old(self)@.dirty,
            r is Err ==> final(self)@ == old(self)@,
    {
        if num_vertices <= self.max_vertices - self.vertices_allocated && num_indices
            <= self.max_indices - self.indices_allocated {
            let a = Allocation {
                vertex_offset: self.vertices_allocated,
                num_vertices,
                index_offset: self.indices_allocated,
                num_indices,
            };
            self.allocations.push(a);
            self.vertices_allocated = self.vertices_allocated + num_vertices;
            self.indices_allocated = self.indices_allocated + num_indices;
            proof {
                let newv = self@;
                let oldv = old(self)@;
                assert(newv.allocations =~= oldv.allocations.push(a@));
                assert forall|i: int|
                    0 <= i < newv.allocations.len() implies #[trigger] alloc_chained(
                    newv.allocations,
                    i,
                ) by {
                    if i < oldv.allocations.len() {
                        assert(alloc_chained(oldv.allocations, i));
                    }
                }
            }
            Ok(self.allocations.len() - 1)
        } else {
            Err(ArenaError::CapacityExceeded)
        }
    }

    /// Where in the vertex buffer the reservation behind `index` starts;
    /// the value every local index of that reservation is rebased by.
    pub fn vertex_offset(&self, index: usize) -> (r: u32)
        requires
            self@.wf(),
            index < self@.allocations.len(),
        ensures
            r == self@.allocations[index as int].vertex_offset,
    {
        self.allocations[index].vertex_offset
    }

    /// Rebases each local index of the reservation by its vertex offset and
    /// stores the result in the reservation's index range. The local
    /// indices must cover the reservation exactly and each must name one of
    /// its own vertices.
    pub fn write_indices(&mut self, index: usize, local: &[u32])
        requires
            old(self)@.wf(),
            index < old(self)@.allocations.len(),
            local@.len() == old(self)@.allocations[index as int].num_indices,
            forall|k: int|
                0 <= k < local@.len() ==> #[trigger] local@[k] < old(self)@.allocations[
                    index as int
                ].num_vertices,
        ensures
            final(self)@.wf(),
            written_rebased_indices(
                final(self)@.indices,
                old(self)@.indices,
                old(self)@.allocations[index as int],
                local@,
            ),
            final(self)@.dirty == true,
            final(self)@.vertices == old(self)@.vertices,
            final(self)@.allocations == old(self)@.allocations,
            final(self)@.max_vertices == old(self)@.max_vertices,
            final(self)@.max_indices == old(self)@.max_indices,
            final(self)@.vertices_allocated == old(self)@.vertices_allocated,
            final(self)@.indices_allocated == old(self)@.indices_allocated,
    {
        proof {
            lemma_alloc_within(self@, index as int);
        }
        let a = self.allocations[index];
        self.dirty = true;
        let mut k: usize = 0;
        while k < local.len()
            invariant
                self@.wf(),
                k <= local@.len(),
                index < self@.allocations.len(),
                self@.allocations[index as int] == old(self)@.allocations[index as int],
                a == self.allocations@[index as int],
                local@.len() == a@.num_indices,
                forall|j: int|
                    0 <= j < local@.len() ==> #[trigger] local@[j] < a@.num_vertices,
                a@.index_offset + a@.num_indices <= self@.indices_allocated,
                a@.vertex_offset + a@.num_vertices <= self@.vertices_allocated,
                self@.indices.len() == old(self)@.indices.len(),
                forall|j: int|
                    a@.index_offset <= j < a@.index_offset + k ==> #[trigger] self@.indices[j]
                        == local@[j - a@.index_offset] + a@.vertex_offset,
                forall|j: int|
                    0 <= j < self@.indices.len() && !(a@.index_offset <= j < a@.index_offset + k)
                        ==> #[trigger] self@.indices[j] == old(self)@.indices[j],
                self@.dirty == true,
                self@.vertices == old(self)@.vertices,
                self@.allocations == old(self)@.allocations,
                self@.max_vertices == old(self)@.max_vertices,
                self@.max_indices == old(self)@.max_indices,
                self@.vertices_allocated == old(self)@.vertices_allocated,
                self@.indices_allocated == old(self)@.indices_allocated,
            decreases local@.len() - k,
        {
            let pos = a.index_offset as usize + k;
            self.indices.set(pos, local[k] + a.vertex_offset);
            k += 1;
        }
    }

    /// Copies `src` into the reservation's vertex range, adding `t` to each
    /// position and keeping each color; marks the whole arena dirty. The
    /// source must cover the reservation exactly.
    pub fn write_vertices_with_translation(&mut self, index: usize, src: &[Vertex], t: Point3D)
        requires
            old(self)@.wf(),
            index < old(self)@.allocations.len(),
            src@.len() == old(self)@.allocations[index as int].num_vertices,
            crate::render::vertices_in_range(src@, VERTEX_LIMIT),
            in_range(t.x as int, VERTEX_LIMIT as int),
            in_range(t.y as int, VERTEX_LIMIT as int),
            in_range(t.z as int, VERTEX_LIMIT as int),
        ensures
            final(self)@.wf(),
            written_translated_vertices(
                final(self)@.vertices,
                old(self)@.vertices,
                old(self)@.allocations[index as int],
                src@,
                t,
            ),
            final(self)@.dirty == true,
            final(self)@.indices == old(self)@.indices,
            final(self)@.allocations == old(self)@.allocations,
            final(self)@.max_vertices == old(self)@.max_vertices,
            final(self)@.max_indices == old(self)@.max_indices,
            final(self)@.vertices_allocated == old(self)@.vertices_allocated,
            final(self)@.indices_allocated == old(self)@.indices_allocated,
    {
        proof {
            lemma_alloc_within(self@, index as int);
        }
        let a = self.allocations[index];
        self.dirty = true;
        let mut k: usize = 0;
        while k < src.len()
            invariant
                self@.wf(),
                k <= src@.len(),
                index < self@.allocations.len(),
                self@.allocations[index as int] == old(self)@.allocations[index as int],
                a == self.allocations@[index as int],
                src@.len() == a@.num_vertices,
                crate::render::vertices_in_range(src@, VERTEX_LIMIT),
                in_range(t.x as int, VERTEX_LIMIT as int),
                in_range(t.y as int, VERTEX_LIMIT as int),
                in_range(t.z as int, VERTEX_LIMIT as int),
                a@.vertex_offset + a@.num_vertices <= self@.vertices_allocated,
                self@.vertices.len() == old(self)@.vertices.len(),
                forall|j: int|
                    a@.vertex_offset <= j < a@.vertex_offset + k ==> is_translated(
                        #[trigger] self@.vertices[j],
                        src@[j - a@.vertex_offset],
                        t,
                    ),
                forall|j: int|
                    0 <= j < self@.vertices.len() && !(a@.vertex_offset <= j < a@.vertex_offset
                        + k) ==> #[trigger] self@.vertices[j] == old(self)@.vertices[j],
                self@.dirty == true,
                self@.indices == old(self)@.indices,
                self@.allocations == old(self)@.allocations,
                self@.max_vertices == old(self)@.max_vertices,
                self@.max_indices == old(self)@.max_indices,
                self@.vertices_allocated == old(self)@.vertices_allocated,
                self@.indices_allocated == old(self)@.indices_allocated,
            decreases src@.len() - k,
        {
            let s = src[k];
            let moved = Vertex {
                position: Point3D { x: s.position.x + t.x, y: s.position.y + t.y, z: s.position.z + t.z },
                color: s.color,
            };
            let pos = a.vertex_offset as usize + k;
            self.vertices.set(pos, moved);
            k += 1;
        }
    }

    /// Decides whether the mirrors must be uploaded now: yes exactly when
    /// something is reserved and the arena is dirty. Clears the dirty flag
    /// in that case and changes nothing otherwise; the caller performs the
    /// upload of the two mirrors whenever this returns true.
    pub fn write_buffer(&mut self) -> (upload: bool)
        requires
            old(self)@.wf(),
        ensures
            final(self)@.wf(),
            upload == (!old(self)@.is_empty() && old(self)@.dirty),
            upload ==> final(self)@ == (DualBufferView { dirty: false, ..old(self)@ }),
            !upload ==> *final(self) == *old(self) && final(self)@ == old(self)@,
    {
        if self.is_empty() || !self.dirty {
            return false;
        }
        self.dirty = false;
        true
    }
}

} // verus!
