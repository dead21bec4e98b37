use vstd::prelude::*;
use crate::render::dual_buffer::{
    is_translated, lemma_alloc_within, lemma_allocations_disjoint, ArenaError, DualBufferView,
};
use crate::render::point::{
    clip_point_spec, point2_in_range, point2_sum, scale_spec, Point2D, Point3D, COORD_LIMIT,
    FIXED_ONE,
};
use crate::render::renderer::{Renderer, RendererView};
use crate::render::{Color, Vertex};
use crate::shape::lines::LinesView;
use crate::shape::polygon::{directions_in_range, polygon_positions_ok, PolygonView};
use crate::shape::rectangle::{rect_positions_ok, RectangleView};
use crate::shape::{size_in_range, size_positive, Lines, Polygon, Rectangle, Size};

verus! {

/// The two arenas keep their reservations, cursors, capacities and index
/// mirrors, and the frame bookkeeping is untouched: all a widget's `draw`
/// may do to the renderer is write vertices into existing reservations.
pub open spec fn frame_preserved(pre: RendererView, post: RendererView) -> bool {
    &&& post.width == pre.width
    &&& post.height == pre.height
    &&& post.state == pre.state
    &&& post.text_queue == pre.text_queue
    &&& arena_structure_preserved(pre.triangles, post.triangles)
    &&& arena_structure_preserved(pre.lines, post.lines)
}

/// Everything of an arena but its vertex contents and its dirty flag.
pub open spec fn arena_structure_preserved(pre: DualBufferView, post: DualBufferView) -> bool {
    &&& post.allocations == pre.allocations
    &&& post.vertices_allocated == pre.vertices_allocated
    &&& post.indices_allocated == pre.indices_allocated
    &&& post.max_vertices == pre.max_vertices
    &&& post.max_indices == pre.max_indices
    &&& post.indices == pre.indices
    &&& post.vertices.len() == pre.vertices.len()
}

/// Inside the vertex range of reservation `handle`: the translation of
/// `vs` if the child was dirty, the old contents otherwise.
pub open spec fn child_range_written(
    pre: DualBufferView,
    post: DualBufferView,
    handle: int,
    vs: Seq<Vertex>,
    t: Point3D,
    was_dirty: bool,
) -> bool {
    forall|k: int|
        pre.allocations[handle].vertex_offset <= k < pre.allocations[handle].vertex_offset
            + vs.len() ==> if was_dirty {
            is_translated(#[trigger] post.vertices[k], vs[k - pre.allocations[handle].vertex_offset], t)
        } else {
            post.vertices[k] == pre.vertices[k]
        }
}

/// A composite drawable: it owns its shapes, which hold reservations in
/// the renderer's arenas, and draws them at its own position.
pub trait Widget: Sized {
    /// The widget's own invariant.
    spec fn wf(&self) -> bool;

    /// Every shape's reservation exists in the right arena of `r` and
    /// holds exactly that shape's vertices.
    spec fn compat(&self, r: RendererView) -> bool;

    /// The widget's offset, the parent position of every child draw.
    spec fn position_of(&self) -> Point2D;

    /// Stores the new offset; the shapes and the arenas are not touched.
    fn set_position(&mut self, position: Point2D)
        requires
            old(self).wf(),
            point2_in_range(position, COORD_LIMIT),
        ensures
            final(self).wf(),
            final(self).position_of() == position,
            forall|r: RendererView| old(self).compat(r) ==> final(self).compat(r),
    ;

    /// Stores the new size; the shapes and the arenas are not touched.
    fn resize(&mut self, size: Size)
        requires
            old(self).wf(),
            size_in_range(size, COORD_LIMIT),
        ensures
            final(self).wf(),
            final(self).position_of() == old(self).position_of(),
            forall|r: RendererView| old(self).compat(r) ==> final(self).compat(r),
    ;

    /// Draws every dirty shape into its reservation and leaves everything
    /// else of the renderer alone.
    fn draw(&mut self, renderer: &mut Renderer)
        requires
            old(self).wf(),
            old(renderer)@.wf(),
            old(self).compat(old(renderer)@),
        ensures
            final(self).wf(),
            final(renderer)@.wf(),
            final(self).compat(final(renderer)@),
            final(self).position_of() == old(self).position_of(),
            frame_preserved(old(renderer)@, final(renderer)@),
    ;
}

/// A demonstration widget: a ten-sided polygon over a rectangle, both of
/// the widget's size, drawn from the triangle-list arena.
pub struct Test {
    position: Point2D,
    size: Size,
    polygon: Polygon,
    rectangle: Rectangle,
}

impl Test {
    pub closed spec fn spec_polygon(&self) -> PolygonView {
        self.polygon@
    }

    pub closed spec fn spec_rectangle(&self) -> RectangleView {
        self.rectangle@
    }

    pub closed spec fn spec_size(&self) -> Size {
        self.size
    }

    /// Reserves the rectangle first, then the polygon, both on the
    /// triangle-list arena and both at the widget's size. Fails with
    /// `CapacityExceeded` exactly when the arena cannot hold both; the
    /// reservations already made stay, as the arena never frees.
    pub fn new(renderer: &mut Renderer, size: Size, directions: Vec<Point2D>) -> (r: Result<
        Test,
        ArenaError,
    >)
        requires
            old(renderer)@.wf(),
            size_in_range(size, COORD_LIMIT),
            directions@.len() == 10,
            directions_in_range(directions@),
        ensures
            final(renderer)@.wf(),
            final(renderer)@.lines == old(renderer)@.lines,
            final(renderer)@.width == old(renderer)@.width,
            final(renderer)@.height == old(renderer)@.height,
            final(renderer)@.state == old(renderer)@.state,
            final(renderer)@.text_queue == old(renderer)@.text_queue,
            r is Ok <==> 15 <= old(renderer)@.triangles.max_vertices - old(
                renderer,
            )@.triangles.vertices_allocated && 36 <= old(renderer)@.triangles.max_indices - old(
                renderer,
            )@.triangles.indices_allocated,
            r is Ok ==> {
                let w = r->Ok_0;
                &&& w.wf()
                &&& w.compat(final(renderer)@)
                &&& w.position_of() == (Point2D { x: 0, y: 0 })
                &&& w.spec_size() == size
                &&& w.spec_rectangle().buffer_handle == old(renderer)@.triangles.allocations.len()
                &&& w.spec_polygon().buffer_handle == old(renderer)@.triangles.allocations.len()
                    + 1
                &&& rect_positions_ok(w.spec_rectangle().vertices, size)
                &&& w.spec_rectangle().size == size
                &&& w.spec_rectangle().position == (Point2D { x: 0, y: 0 })
                &&& w.spec_rectangle().dirty == true
                &&& w.spec_polygon().point_count == 10
                &&& w.spec_polygon().directions == directions@
                &&& w.spec_polygon().size == size
                &&& w.spec_polygon().position == (Point2D { x: 0, y: 0 })
                &&& w.spec_polygon().dirty == true
                &&& polygon_positions_ok(w.spec_polygon().vertices, directions@, size)
                &&& final(renderer)@.triangles.allocations.len() == old(
                    renderer,
                )@.triangles.allocations.len() + 2
                &&& final(renderer)@.triangles.vertices_allocated == old(
                    renderer,
                )@.triangles.vertices_allocated + 15
                &&& final(renderer)@.triangles.indices_allocated == old(
                    renderer,
                )@.triangles.indices_allocated + 36
                &&& final(renderer)@.triangles.vertices == old(renderer)@.triangles.vertices
            },
    {
        let rectangle = match Rectangle::new(&mut renderer.triangles_buffer, size) {
            Ok(s) => s,
            Err(e) => {
                return Err(e);
            },
        };
        let polygon = match Polygon::new(&mut renderer.triangles_buffer, size, 10, directions) {
            Ok(s) => s,
            Err(e) => {
                return Err(e);
            },
        };
        Ok(Test { position: Point2D { x: 0, y: 0 }, size, polygon, rectangle })
    }
}

impl Widget for Test {
    closed spec fn wf(&self) -> bool {
        &&& self.polygon@.wf()
        &&& self.rectangle@.wf()
        &&& self.polygon@.buffer_handle != self.rectangle@.buffer_handle
        &&& point2_in_range(self.position, COORD_LIMIT)
        &&& size_in_range(self.size, COORD_LIMIT)
    }

    closed spec fn compat(&self, r: RendererView) -> bool {
        &&& self.polygon@.compat(r.triangles)
        &&& self.rectangle@.compat(r.triangles)
    }

    closed spec fn position_of(&self) -> Point2D {
        self.position
    }

    fn set_position(&mut self, position: Point2D)
        ensures
            final(self).spec_polygon() == old(self).spec_polygon(),
            final(self).spec_rectangle() == old(self).spec_rectangle(),
            final(self).spec_size() == old(self).spec_size(),
    {
        self.position = position;
    }

    fn resize(&mut self, size: Size)
        ensures
            final(self).spec_size() == size,
            final(self).spec_polygon() == old(self).spec_polygon(),
            final(self).spec_rectangle() == old(self).spec_rectangle(),
    {
        self.size = size;
    }

    fn draw(&mut self, renderer: &mut Renderer)
        ensures
            final(self).spec_polygon() == (PolygonView {
                dirty: false,
                ..old(self).spec_polygon()
            }),
            final(self).spec_rectangle() == (RectangleView {
                dirty: false,
                ..old(self).spec_rectangle()
            }),
            child_range_written(
                old(renderer)@.triangles,
                final(renderer)@.triangles,
                old(self).spec_polygon().buffer_handle,
                old(self).spec_polygon().vertices,
                clip_point_spec(
                    point2_sum(old(self).position_of(), old(self).spec_polygon().position),
                ),
                old(self).spec_polygon().dirty,
            ),
            child_range_written(
                old(renderer)@.triangles,
                final(renderer)@.triangles,
                old(self).spec_rectangle().buffer_handle,
                old(self).spec_rectangle().vertices,
                clip_point_spec(
                    point2_sum(old(self).position_of(), old(self).spec_rectangle().position),
                ),
                old(self).spec_rectangle().dirty,
            ),
            !old(self).spec_polygon().dirty && !old(self).spec_rectangle().dirty
                ==> *final(renderer) == *old(renderer),
    {
        let ghost pre = renderer@.triangles;
        let ghost hp = self.polygon@.buffer_handle;
        let ghost hr = self.rectangle@.buffer_handle;
        let ghost len_p = self.polygon@.vertices.len() as int;
        let ghost len_r = self.rectangle@.vertices.len() as int;
        proof {
            lemma_allocations_disjoint(pre, hp, hr);
            lemma_alloc_within(pre, hp);
            lemma_alloc_within(pre, hr);
        }
        self.polygon.draw(&mut renderer.triangles_buffer, self.position);
        let ghost mid = renderer@.triangles;
        self.rectangle.draw(&mut renderer.triangles_buffer, self.position);
        proof {
            let post = renderer@.triangles;
            let ap = pre.allocations[hp];
            let ar = pre.allocations[hr];
            assert forall|k: int| ap.vertex_offset <= k < ap.vertex_offset + len_p implies !(
            ar.vertex_offset <= k < ar.vertex_offset + len_r) && post.vertices[k]
                == mid.vertices[k] by {
                assert(0 <= k < mid.vertices.len());
                if old(self).spec_rectangle().dirty {
                    assert(post.vertices[k] == mid.vertices[k]);
                } else {
                    assert(post == mid);
                }
            }
            assert forall|k: int|
                ar.vertex_offset <= k < ar.vertex_offset + len_r && !old(
                    self,
                ).spec_rectangle().dirty implies !(ap.vertex_offset <= k < ap.vertex_offset
                + len_p) && mid.vertices[k] == pre.vertices[k] by {
                assert(0 <= k < pre.vertices.len());
                if old(self).spec_polygon().dirty {
                    assert(mid.vertices[k] == pre.vertices[k]);
                } else {
                    assert(mid == pre);
                }
            }
        }
    }
}

/// A target pin-point widget: a thirty-sided black border polygon, a
/// fifteen-sided green locator polygon at a tenth of the size, and a
/// crosshair of two lines through the middle.
pub struct TargetPinpoint {
    position: Point2D,
    size: Size,
    border: Polygon,
    target_locator: Polygon,
    crosshair: Lines,
}

impl TargetPinpoint {
    pub closed spec fn spec_border(&self) -> PolygonView {
        self.border@
    }

    pub closed spec fn spec_locator(&self) -> PolygonView {
        self.target_locator@
    }

    pub closed spec fn spec_crosshair(&self) -> LinesView {
        self.crosshair@
    }

    pub closed spec fn spec_size(&self) -> Size {
        self.size
    }

    /// The middle of the widget: half its size, read as a point.
    pub open spec fn center_spec(size: Size) -> Point2D {
        Point2D {
            x: scale_spec(size.width as int, 1, 2) as i64,
            y: scale_spec(size.height as int, 1, 2) as i64,
        }
    }

    /// A tenth of the widget's size, the locator polygon's size.
    pub open spec fn tenth_spec(size: Size) -> Size {
        Size {
            width: scale_spec(size.width as int, FIXED_ONE as int, 10 * FIXED_ONE as int) as i64,
            height: scale_spec(size.height as int, FIXED_ONE as int, 10 * FIXED_ONE as int) as i64,
        }
    }

    /// Builds the three shapes: the border polygon (centered, black), the
    /// locator polygon (a tenth of the size, centered, green) — both on
    /// the triangle-list arena — and the crosshair lines through the
    /// middle on the line-list arena. Fails with `CapacityExceeded`
    /// exactly when either arena cannot hold its share; the reservations
    /// already made stay, as the arenas never free.
    pub fn new(
        renderer: &mut Renderer,
        size: Size,
        border_directions: Vec<Point2D>,
        locator_directions: Vec<Point2D>,
    ) -> (r: Result<TargetPinpoint, ArenaError>)
        requires
            old(renderer)@.wf(),
            size_in_range(size, COORD_LIMIT),
            size_positive(size),
            border_directions@.len() == 30,
            directions_in_range(border_directions@),
            locator_directions@.len() == 15,
            directions_in_range(locator_directions@),
        ensures
            final(renderer)@.wf(),
            final(renderer)@.width == old(renderer)@.width,
            final(renderer)@.height == old(renderer)@.height,
            final(renderer)@.state == old(renderer)@.state,
            final(renderer)@.text_queue == old(renderer)@.text_queue,
            r is Ok <==> 47 <= old(renderer)@.triangles.max_vertices - old(
                renderer,
            )@.triangles.vertices_allocated && 135 <= old(renderer)@.triangles.max_indices - old(
                renderer,
            )@.triangles.indices_allocated && 4 <= old(renderer)@.lines.max_vertices - old(
                renderer,
            )@.lines.vertices_allocated && 4 <= old(renderer)@.lines.max_indices - old(
                renderer,
            )@.lines.indices_allocated,
            r is Ok ==> {
                let w = r->Ok_0;
                let center = TargetPinpoint::center_spec(size);
                &&& w.wf()
                &&& w.compat(final(renderer)@)
                &&& w.position_of() == (Point2D { x: 0, y: 0 })
                &&& w.spec_size() == size
                &&& w.spec_border().point_count == 30
                &&& w.spec_border().directions == border_directions@
                &&& w.spec_border().size == size
                &&& w.spec_border().position == center
                &&& w.spec_border().dirty == true
                &&& polygon_positions_ok(w.spec_border().vertices, border_directions@, size)
                &&& forall|k: int|
                    0 <= k < w.spec_border().vertices.len()
                        ==> (#[trigger] w.spec_border().vertices[k]).color == (Color {
                        r: 0,
                        g: 0,
                        b: 0,
                    })
                &&& w.spec_locator().point_count == 15
                &&& w.spec_locator().directions == locator_directions@
                &&& w.spec_locator().size == TargetPinpoint::tenth_spec(size)
                &&& w.spec_locator().position == center
                &&& w.spec_locator().dirty == true
                &&& polygon_positions_ok(
                    w.spec_locator().vertices,
                    locator_directions@,
                    TargetPinpoint::tenth_spec(size),
                )
                &&& forall|k: int|
                    0 <= k < w.spec_locator().vertices.len()
                        ==> (#[trigger] w.spec_locator().vertices[k]).color == (Color {
                        r: 0,
                        g: FIXED_ONE,
                        b: 0,
                    })
                &&& w.spec_crosshair().size == size
                &&& w.spec_crosshair().position == (Point2D { x: 0, y: 0 })
                &&& w.spec_crosshair().dirty == true
                &&& w.spec_crosshair().vertices.len() == 4
                &&& crosshair_positions_ok(w.spec_crosshair().vertices, size)
                &&& final(renderer)@.triangles.vertices_allocated == old(
                    renderer,
                )@.triangles.vertices_allocated + 47
                &&& final(renderer)@.triangles.indices_allocated == old(
                    renderer,
                )@.triangles.indices_allocated + 135
                &&& final(renderer)@.lines.vertices_allocated == old(
                    renderer,
                )@.lines.vertices_allocated + 4
                &&& final(renderer)@.lines.indices_allocated == old(
                    renderer,
                )@.lines.indices_allocated + 4
            },
    {
        let border = match Polygon::new(
            &mut renderer.triangles_buffer,
            size,
            30,
            border_directions,
        ) {
            Ok(s) => s,
            Err(e) => {
                return Err(e);
            },
        };
        let mut border = border;
        proof {
            crate::render::point::lemma_scale_bound(size.width as int, 1, 2, COORD_LIMIT as int, 1);
            crate::render::point::lemma_scale_bound(
                size.height as int,
                1,
                2,
                COORD_LIMIT as int,
                1,
            );
        }
        let center = Point2D {
            x: crate::render::point::scale_fixed(size.width, 1, 2),
            y: crate::render::point::scale_fixed(size.height, 1, 2),
        };
        border.set_position(center);
        border.set_color(Color::black());
        let tenth = size.div_scalar(10 * FIXED_ONE);
        proof {
            crate::render::point::lemma_scale_bound(
                size.width as int,
                FIXED_ONE as int,
                10 * FIXED_ONE as int,
                COORD_LIMIT as int,
                FIXED_ONE as int,
            );
            crate::render::point::lemma_scale_bound(
                size.height as int,
                FIXED_ONE as int,
                10 * FIXED_ONE as int,
                COORD_LIMIT as int,
                FIXED_ONE as int,
            );
        }
        let locator = match Polygon::new(
            &mut renderer.triangles_buffer,
            tenth,
            15,
            locator_directions,
        ) {
            Ok(s) => s,
            Err(e) => {
                return Err(e);
            },
        };
        let mut target_locator = locator;
        target_locator.set_position(center);
        target_locator.set_color(Color::green());
        let crosshair = match Lines::new(&mut renderer.lines_buffer, size, 2) {
            Ok(s) => s,
            Err(e) => {
                return Err(e);
            },
        };
        let mut crosshair = crosshair;
        let half_h = crate::render::point::scale_fixed(size.height, 1, 2);
        let half_w = crate::render::point::scale_fixed(size.width, 1, 2);
        crosshair.set_line_position(
            0,
            Point2D { x: 0, y: half_h },
            Point2D { x: size.width, y: half_h },
        );
        crosshair.set_line_position(
            1,
            Point2D { x: half_w, y: 0 },
            Point2D { x: half_w, y: size.height },
        );
        Ok(
            TargetPinpoint {
                position: Point2D { x: 0, y: 0 },
                size,
                border,
                target_locator,
                crosshair,
            },
        )
    }
}

/// The crosshair's four local vertices: the endpoints of the horizontal
/// line through the middle, then of the vertical one, each a unit-space
/// point converted to clip space.
pub open spec fn crosshair_positions_ok(vs: Seq<Vertex>, size: Size) -> bool {
    let half_w = scale_spec(size.width as int, 1, 2) as i64;
    let half_h = scale_spec(size.height as int, 1, 2) as i64;
    &&& vs.len() == 4
    &&& crate::render::point::is_point_clip(vs[0].position, Point2D { x: 0, y: half_h })
    &&& crate::render::point::is_point_clip(vs[1].position, Point2D { x: size.width, y: half_h })
    &&& crate::render::point::is_point_clip(vs[2].position, Point2D { x: half_w, y: 0 })
    &&& crate::render::point::is_point_clip(vs[3].position, Point2D { x: half_w, y: size.height })
}

impl Widget for TargetPinpoint {
    closed spec fn wf(&self) -> bool {
        &&& self.border@.wf()
        &&& self.target_locator@.wf()
        &&& self.crosshair@.wf()
        &&& self.border@.buffer_handle != self.target_locator@.buffer_handle
        &&& point2_in_range(self.position, COORD_LIMIT)
        &&& size_in_range(self.size, COORD_LIMIT)
    }

    closed spec fn compat(&self, r: RendererView) -> bool {
        &&& self.border@.compat(r.triangles)
        &&& self.target_locator@.compat(r.triangles)
        &&& self.crosshair@.compat(r.lines)
    }

    closed spec fn position_of(&self) -> Point2D {
        self.position
    }

    fn set_position(&mut self, position: Point2D)
        ensures
            final(self).spec_border() == old(self).spec_border(),
            final(self).spec_locator() == old(self).spec_locator(),
            final(self).spec_crosshair() == old(self).spec_crosshair(),
            final(self).spec_size() == old(self).spec_size(),
    {
        self.position = position;
    }

    fn resize(&mut self, size: Size)
        ensures
            final(self).spec_size() == size,
            final(self).spec_border() == old(self).spec_border(),
            final(self).spec_locator() == old(self).spec_locator(),
            final(self).spec_crosshair() == old(self).spec_crosshair(),
    {
        self.size = size;
    }

    fn draw(&mut self, renderer: &mut Renderer)
        ensures
            final(self).spec_border() == (PolygonView { dirty: false, ..old(self).spec_border() }),
            final(self).spec_locator() == (PolygonView {
                dirty: false,
                ..old(self).spec_locator()
            }),
            final(self).spec_crosshair() == (LinesView {
                dirty: false,
                ..old(self).spec_crosshair()
            }),
            child_range_written(
                old(renderer)@.triangles,
                final(renderer)@.triangles,
                old(self).spec_border().buffer_handle,
                old(self).spec_border().vertices,
                clip_point_spec(
                    point2_sum(old(self).position_of(), old(self).spec_border().position),
                ),
                old(self).spec_border().dirty,
            ),
            child_range_written(
                old(renderer)@.triangles,
                final(renderer)@.triangles,
                old(self).spec_locator().buffer_handle,
                old(self).spec_locator().vertices,
                clip_point_spec(
                    point2_sum(old(self).position_of(), old(self).spec_locator().position),
                ),
                old(self).spec_locator().dirty,
            ),
            child_range_written(
                old(renderer)@.lines,
                final(renderer)@.lines,
                old(self).spec_crosshair().buffer_handle,
                old(self).spec_crosshair().vertices,
                crate::render::point::clip_vector_spec(
                    point2_sum(old(self).position_of(), old(self).spec_crosshair().position),
                ),
                old(self).spec_crosshair().dirty,
            ),
    {
        let ghost pre = renderer@.triangles;
        let ghost hb = self.border@.buffer_handle;
        let ghost hl = self.target_locator@.buffer_handle;
        let ghost len_b = self.border@.vertices.len() as int;
        let ghost len_l = self.target_locator@.vertices.len() as int;
        proof {
            lemma_allocations_disjoint(pre, hb, hl);
            lemma_alloc_within(pre, hb);
            lemma_alloc_within(pre, hl);
        }
        self.border.draw(&mut renderer.triangles_buffer, self.position);
        let ghost mid = renderer@.triangles;
        self.target_locator.draw(&mut renderer.triangles_buffer, self.position);
        proof {
            let post = renderer@.triangles;
            let ab = pre.allocations[hb];
            let al = pre.allocations[hl];
            assert forall|k: int| ab.vertex_offset <= k < ab.vertex_offset + len_b implies !(
            al.vertex_offset <= k < al.vertex_offset + len_l) && post.vertices[k]
                == mid.vertices[k] by {
                assert(0 <= k < mid.vertices.len());
                if old(self).spec_locator().dirty {
                    assert(post.vertices[k] == mid.vertices[k]);
                } else {
                    assert(post == mid);
                }
            }
            assert forall|k: int|
                al.vertex_offset <= k < al.vertex_offset + len_l && !old(
                    self,
                ).spec_locator().dirty implies !(ab.vertex_offset <= k < ab.vertex_offset + len_b)
                && mid.vertices[k] == pre.vertices[k] by {
                assert(0 <= k < pre.vertices.len());
                if old(self).spec_border().dirty {
                    assert(mid.vertices[k] == pre.vertices[k]);
                } else {
                    assert(mid == pre);
                }
            }
        }
        self.crosshair.draw(&mut renderer.lines_buffer, self.position);
    }
}

} // verus!
