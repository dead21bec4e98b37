use md_wgpu::render::dual_buffer::{ArenaError, DualBuffer};
use md_wgpu::{Color, Lines, Point2D, Point3D, Polygon, Rectangle, Shape, Size};

/// One fixed-point unit: the raw value that stands for 1.0.
const ONE: i64 = 65536;

fn fixed(v: f64) -> i64 {
    (v * ONE as f64).round() as i64
}

/// The unit-circle samples a polygon caller supplies: angle
/// `i * 2*pi / n - pi / 2` for `i` in `0..n`, so the first sample points
/// straight up.
fn circle_directions(n: u8) -> Vec<Point2D> {
    let mut dirs = Vec::new();
    for i in 0..n {
        let angle = i as f64 * 2.0 * std::f64::consts::PI / n as f64 - std::f64::consts::PI / 2.0;
        dirs.push(Point2D { x: fixed(angle.cos()), y: fixed(angle.sin()) });
    }
    dirs
}

#[test]
fn rectangle_corners_and_indices() {
    let mut arena = DualBuffer::new(4, 6);
    let mut rect = Rectangle::new(&mut arena, Size { width: ONE / 2, height: ONE / 4 }).unwrap();
    // The fixed two-triangle topology, unshifted in a fresh arena.
    assert_eq!(arena.indices().as_slice(), &[0, 1, 2, 0, 2, 3]);
    rect.draw(&mut arena, Point2D { x: 0, y: 0 });
    // Drawing at the origin translates by the clip image of (0,0): (-1, 1).
    // The local corners (0,0), (0,h), (w,h), (w,0) appear as size deltas
    // (2x, -2y) shifted by that translation.
    let vs = arena.vertices();
    assert_eq!(vs[0].position, Point3D { x: -ONE, y: ONE, z: 0 });
    assert_eq!(vs[1].position, Point3D { x: -ONE, y: ONE / 2, z: 0 });
    assert_eq!(vs[2].position, Point3D { x: 0, y: ONE / 2, z: 0 });
    assert_eq!(vs[3].position, Point3D { x: 0, y: ONE, z: 0 });
    // The initial corner colors.
    assert_eq!(vs[0].color, Color::red());
    assert_eq!(vs[1].color, Color::green());
    assert_eq!(vs[2].color, Color::blue());
    assert_eq!(vs[3].color, Color::green());
}

#[test]
fn rectangle_exhausts_arena() {
    let mut arena = DualBuffer::new(4, 6);
    let first = Rectangle::new(&mut arena, Size { width: ONE, height: ONE });
    assert!(first.is_ok());
    let second = Rectangle::new(&mut arena, Size { width: ONE, height: ONE });
    assert_eq!(second.err(), Some(ArenaError::CapacityExceeded));
}

#[test]
fn rectangle_resize_keeps_colors() {
    let mut arena = DualBuffer::new(4, 6);
    let mut rect = Rectangle::new(&mut arena, Size { width: ONE, height: ONE }).unwrap();
    rect.set_color(Color::black());
    rect.resize(Size { width: ONE / 2, height: ONE / 2 });
    rect.draw(&mut arena, Point2D { x: 0, y: 0 });
    let vs = arena.vertices();
    assert_eq!(vs[2].position, Point3D { x: 0, y: 0, z: 0 });
    for k in 0..4 {
        assert_eq!(vs[k].color, Color::black());
    }
}

#[test]
fn polygon_vertex_one_sits_at_the_top_after_resize() {
    let mut arena = DualBuffer::new(10, 12);
    let mut poly = Polygon::new(
        &mut arena,
        Size { width: ONE, height: ONE },
        4,
        circle_directions(4),
    )
    .unwrap();
    let rx = ONE / 2;
    let ry = 3 * ONE / 4;
    poly.resize(Size { width: rx, height: ry });
    poly.draw(&mut arena, Point2D { x: 0, y: 0 });
    let vs = arena.vertices();
    // Vertex 0 is the center, at the translation alone.
    assert_eq!(vs[0].position, Point3D { x: -ONE, y: ONE, z: 0 });
    // Vertex 1 samples the angle -pi/2: local (rx*cos, ry*sin) = (0, -ry).
    assert_eq!(vs[1].position, Point3D { x: -ONE, y: ONE - ry, z: 0 });
    // Vertex 2 samples the angle 0: local (rx, 0).
    assert_eq!(vs[2].position, Point3D { x: -ONE + rx, y: ONE, z: 0 });
    // Vertices 3 and 4 sample pi/2 and pi.
    assert_eq!(vs[3].position, Point3D { x: -ONE, y: ONE + ry, z: 0 });
    assert_eq!(vs[4].position, Point3D { x: -ONE - rx, y: ONE, z: 0 });
}

#[test]
fn polygon_fan_topology() {
    let mut arena = DualBuffer::new(10, 12);
    Polygon::new(&mut arena, Size { width: ONE, height: ONE }, 4, circle_directions(4)).unwrap();
    // The first triangle closes the fan; the rest walk the rim.
    assert_eq!(arena.indices().as_slice(), &[0, 4, 1, 0, 1, 2, 0, 2, 3, 0, 3, 4]);
    assert_eq!(arena.indices_len(), 12);
}

#[test]
fn polygon_rebased_fan_in_shared_arena() {
    let mut arena = DualBuffer::new(20, 20);
    Rectangle::new(&mut arena, Size { width: ONE, height: ONE }).unwrap();
    Polygon::new(&mut arena, Size { width: ONE, height: ONE }, 3, circle_directions(3)).unwrap();
    // The polygon's local fan (0,3,1, 0,1,2, 0,2,3) rebased by its vertex
    // offset 4, after the rectangle's own six indices.
    assert_eq!(
        arena.indices().as_slice(),
        &[0, 1, 2, 0, 2, 3, 4, 7, 5, 4, 5, 6, 4, 6, 7, 0, 0, 0, 0, 0]
    );
}

#[test]
fn lines_diamond_draws_translated_clip_points() {
    let mut arena = DualBuffer::new(10, 10);
    let mut lines = Lines::new(&mut arena, Size { width: ONE, height: ONE }, 4).unwrap();
    // A diamond between the four edge midpoints of the unit square.
    lines.set_line_position(0, Point2D { x: ONE / 2, y: 0 }, Point2D { x: ONE, y: ONE / 2 });
    lines.set_line_color(0, Color::red());
    lines.set_line_position(1, Point2D { x: ONE, y: ONE / 2 }, Point2D { x: ONE / 2, y: ONE });
    lines.set_line_color(1, Color::green());
    lines.set_line_position(2, Point2D { x: ONE / 2, y: ONE }, Point2D { x: 0, y: ONE / 2 });
    lines.set_line_color(2, Color::blue());
    lines.set_line_position(3, Point2D { x: 0, y: ONE / 2 }, Point2D { x: ONE / 2, y: 0 });
    lines.set_line_color(3, Color::green());
    lines.draw(&mut arena, Point2D { x: 0, y: 0 });
    // Each endpoint is the unit->clip point conversion (2x-1, 1-2y); the
    // translation for a line set is the vector conversion of (0,0): zero.
    let expected = [
        (Point3D { x: 0, y: ONE, z: 0 }, Color::red()),
        (Point3D { x: ONE, y: 0, z: 0 }, Color::red()),
        (Point3D { x: ONE, y: 0, z: 0 }, Color::green()),
        (Point3D { x: 0, y: -ONE, z: 0 }, Color::green()),
        (Point3D { x: 0, y: -ONE, z: 0 }, Color::blue()),
        (Point3D { x: -ONE, y: 0, z: 0 }, Color::blue()),
        (Point3D { x: -ONE, y: 0, z: 0 }, Color::green()),
        (Point3D { x: 0, y: ONE, z: 0 }, Color::green()),
    ];
    let vs = arena.vertices();
    for (k, (pos, color)) in expected.iter().enumerate() {
        assert_eq!(vs[k].position, *pos);
        assert_eq!(vs[k].color, *color);
    }
    // The identity index list of a line list.
    assert_eq!(&arena.indices()[0..8], &[0, 1, 2, 3, 4, 5, 6, 7]);
}

#[test]
fn lines_resize_scales_by_size_ratio() {
    let mut arena = DualBuffer::new(10, 10);
    let mut lines = Lines::new(&mut arena, Size { width: ONE, height: ONE }, 1).unwrap();
    lines.set_line_position(0, Point2D { x: ONE / 4, y: ONE / 4 }, Point2D { x: ONE, y: ONE });
    // Local endpoints: (-0.5, 0.5) and (1, -1) in clip units.
    let new_size = Size { width: 2 * ONE, height: ONE / 2 };
    assert!(lines.can_resize(new_size));
    lines.resize(new_size);
    lines.draw(&mut arena, Point2D { x: 0, y: 0 });
    let vs = arena.vertices();
    assert_eq!(vs[0].position, Point3D { x: -ONE, y: ONE / 4, z: 0 });
    assert_eq!(vs[1].position, Point3D { x: 2 * ONE, y: -ONE / 2, z: 0 });
}

#[test]
fn lines_resize_truncates_towards_zero() {
    let mut arena = DualBuffer::new(10, 10);
    let mut lines = Lines::new(&mut arena, Size { width: ONE, height: ONE }, 1).unwrap();
    // Local x of the first endpoint: 2*(1/4) - 1 = -0.5, raw -32768.
    lines.set_line_position(0, Point2D { x: ONE / 4, y: 0 }, Point2D { x: ONE / 4, y: 0 });
    let third = Size { width: 21845, height: ONE };
    assert!(lines.can_resize(third));
    lines.resize(third);
    lines.draw(&mut arena, Point2D { x: 0, y: 0 });
    // -32768 * 21845 / 65536 = -10922.66..., truncated towards zero.
    assert_eq!(arena.vertices()[0].position.x, -10922);
}

#[test]
fn draw_is_a_no_op_until_the_next_mutation() {
    let mut arena = DualBuffer::new(4, 6);
    let mut rect = Rectangle::new(&mut arena, Size { width: ONE, height: ONE }).unwrap();
    rect.draw(&mut arena, Point2D { x: 0, y: 0 });
    assert!(arena.is_dirty());
    // The frame upload clears the arena.
    assert!(arena.write_buffer());
    // A second draw without a mutation writes nothing: no new upload.
    rect.draw(&mut arena, Point2D { x: 0, y: 0 });
    assert!(!arena.is_dirty());
    assert!(!arena.write_buffer());
    // A mutation makes the next draw write again.
    rect.set_position(Point2D { x: ONE / 4, y: 0 });
    rect.draw(&mut arena, Point2D { x: 0, y: 0 });
    assert!(arena.is_dirty());
    assert!(arena.write_buffer());
}

#[test]
fn shape_enum_dispatches_like_the_concrete_types() {
    let mut direct_arena = DualBuffer::new(4, 6);
    let mut direct = Rectangle::new(&mut direct_arena, Size { width: ONE, height: ONE }).unwrap();
    let mut enum_arena = DualBuffer::new(4, 6);
    let rect = Rectangle::new(&mut enum_arena, Size { width: ONE, height: ONE }).unwrap();
    let mut shape = Shape::Rectangle(rect);

    direct.set_position(Point2D { x: ONE / 8, y: ONE / 8 });
    shape.set_position(Point2D { x: ONE / 8, y: ONE / 8 });
    direct.resize(Size { width: ONE / 2, height: ONE / 4 });
    assert!(shape.can_resize(Size { width: ONE / 2, height: ONE / 4 }));
    shape.resize(Size { width: ONE / 2, height: ONE / 4 });
    direct.set_color(Color::blue());
    shape.set_color(Color::blue());
    direct.draw(&mut direct_arena, Point2D { x: ONE / 8, y: 0 });
    shape.draw(&mut enum_arena, Point2D { x: ONE / 8, y: 0 });

    assert_eq!(direct_arena.vertices().as_slice(), enum_arena.vertices().as_slice());
    assert_eq!(direct_arena.indices().as_slice(), enum_arena.indices().as_slice());
}

#[test]
fn lines_through_shape_enum() {
    let mut arena = DualBuffer::new(10, 10);
    let lines = Lines::new(&mut arena, Size { width: ONE, height: ONE }, 2).unwrap();
    let mut shape = Shape::Lines(lines);
    shape.set_color(Color::red());
    shape.draw(&mut arena, Point2D { x: 0, y: 0 });
    for k in 0..4 {
        assert_eq!(arena.vertices()[k].color, Color::red());
    }
}
