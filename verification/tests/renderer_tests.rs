use md_wgpu::render::renderer::{FrameAction, SurfaceError};
use md_wgpu::{Color, Point2D, Point3D, Rectangle, Renderer, Size, TargetPinpoint, Test, Widget};

/// One fixed-point unit: the raw value that stands for 1.0.
const ONE: i64 = 65536;

fn fixed(v: f64) -> i64 {
    (v * ONE as f64).round() as i64
}

/// The unit-circle samples a polygon caller supplies: angle
/// `i * 2*pi / n - pi / 2` for `i` in `0..n`.
fn circle_directions(n: u8) -> Vec<Point2D> {
    let mut dirs = Vec::new();
    for i in 0..n {
        let angle = i as f64 * 2.0 * std::f64::consts::PI / n as f64 - std::f64::consts::PI / 2.0;
        dirs.push(Point2D { x: fixed(angle.cos()), y: fixed(angle.sin()) });
    }
    dirs
}

#[test]
fn new_renderer_is_idle_with_empty_arenas() {
    let r = Renderer::new(1600, 900);
    assert!(r.is_idle());
    assert_eq!(r.size(), (1600, 900));
    assert!(r.triangles_buffer.is_empty());
    assert!(r.lines_buffer.is_empty());
}

#[test]
fn frame_cycle_returns_a_plan_and_goes_idle() {
    let mut r = Renderer::new(800, 600);
    r.render_start();
    assert!(!r.is_idle());
    let plan = r.render_finish().expect("a frame was in progress");
    assert!(r.is_idle());
    // Nothing was reserved or written: nothing to upload, no line pass.
    assert!(!plan.upload_triangles);
    assert!(!plan.upload_lines);
    assert_eq!(plan.triangles_index_count, 0);
    assert!(!plan.draw_lines);
    assert_eq!(plan.lines_index_count, 0);
    assert!(plan.text.is_empty());
}

#[test]
fn render_finish_without_a_frame_is_a_no_op() {
    let mut r = Renderer::new(800, 600);
    assert!(r.render_finish().is_none());
    assert!(r.is_idle());
}

#[test]
fn resize_is_rejected_while_a_frame_is_in_progress() {
    let mut r = Renderer::new(800, 600);
    r.render_start();
    assert!(!r.resize(1024, 768));
    assert_eq!(r.size(), (800, 600));
    r.render_finish();
    assert!(r.resize(1024, 768));
    assert_eq!(r.size(), (1024, 768));
}

#[test]
fn queued_text_leaves_with_the_frame_plan() {
    let mut r = Renderer::new(800, 600);
    r.render_start();
    r.draw_text(String::from("alpha"), Point2D { x: 50, y: 50 }, Color::red(), 32 * ONE);
    r.draw_text(String::from("beta"), Point2D { x: 50, y: 70 }, Color::green(), 20 * ONE);
    let plan = r.render_finish().unwrap();
    assert_eq!(plan.text.len(), 2);
    assert_eq!(plan.text[0].text, "alpha");
    assert_eq!(plan.text[0].color, Color::red());
    assert_eq!(plan.text[1].text, "beta");
    assert_eq!(plan.text[1].scale, 20 * ONE);
    // The queue was drained: the next frame starts empty.
    r.render_start();
    let plan = r.render_finish().unwrap();
    assert!(plan.text.is_empty());
}

#[test]
fn upload_happens_exactly_once_per_change() {
    let mut r = Renderer::new(800, 600);
    let mut rect =
        Rectangle::new(&mut r.triangles_buffer, Size { width: ONE / 2, height: ONE / 2 }).unwrap();
    r.render_start();
    rect.draw(&mut r.triangles_buffer, Point2D { x: 0, y: 0 });
    let plan = r.render_finish().unwrap();
    assert!(plan.upload_triangles);
    assert_eq!(plan.triangles_index_count, 6);
    assert!(!plan.draw_lines);
    // Second frame, no mutation: the draw writes nothing, the flush sees a
    // clean arena, so the plan asks for no upload.
    r.render_start();
    rect.draw(&mut r.triangles_buffer, Point2D { x: 0, y: 0 });
    let plan = r.render_finish().unwrap();
    assert!(!plan.upload_triangles);
    // A mutation brings the upload back.
    rect.set_color(Color::black());
    r.render_start();
    rect.draw(&mut r.triangles_buffer, Point2D { x: 0, y: 0 });
    let plan = r.render_finish().unwrap();
    assert!(plan.upload_triangles);
}

#[test]
fn surface_errors_map_to_their_actions() {
    assert_eq!(md_wgpu::render::renderer::classify_surface_error(SurfaceError::Lost), FrameAction::Reconfigure);
    assert_eq!(
        md_wgpu::render::renderer::classify_surface_error(SurfaceError::OutOfMemory),
        FrameAction::Terminate
    );
    assert_eq!(md_wgpu::render::renderer::classify_surface_error(SurfaceError::Timeout), FrameAction::SkipFrame);
    assert_eq!(md_wgpu::render::renderer::classify_surface_error(SurfaceError::Outdated), FrameAction::SkipFrame);
}

#[test]
fn test_widget_reserves_rectangle_then_polygon() {
    let mut r = Renderer::new(800, 600);
    let size = Size { width: ONE / 2, height: ONE / 2 };
    let mut w = Test::new(&mut r, size, circle_directions(10)).unwrap();
    // Rectangle: 4 vertices, 6 indices; polygon: 11 vertices, 30 indices.
    assert_eq!(r.triangles_buffer.vertex_offset(0), 0);
    assert_eq!(r.triangles_buffer.vertex_offset(1), 4);
    assert_eq!(r.triangles_buffer.indices_len(), 36);
    w.set_position(Point2D { x: ONE / 2, y: ONE / 2 });
    w.draw(&mut r);
    assert!(r.triangles_buffer.is_dirty());
    // The polygon center sits at the clip image of the widget position.
    assert_eq!(
        r.triangles_buffer.vertices()[4].position,
        Point3D { x: 0, y: 0, z: 0 }
    );
}

#[test]
fn target_pinpoint_builds_its_three_shapes() {
    let mut r = Renderer::new(800, 600);
    let size = Size { width: ONE / 2, height: ONE / 2 };
    let mut w = TargetPinpoint::new(&mut r, size, circle_directions(30), circle_directions(15))
        .unwrap();
    // Border: 31 vertices, 90 indices; locator: 16 vertices, 45 indices.
    assert_eq!(r.triangles_buffer.vertex_offset(0), 0);
    assert_eq!(r.triangles_buffer.vertex_offset(1), 31);
    assert_eq!(r.triangles_buffer.indices_len(), 135);
    // Crosshair: two lines through the middle.
    assert_eq!(r.lines_buffer.indices_len(), 4);
    w.draw(&mut r);
    let vs = r.lines_buffer.vertices();
    // Horizontal line at half height: from (0, 0.25) to (0.5, 0.25) in
    // unit space, as clip points, translated by the vector image of (0,0).
    assert_eq!(vs[0].position, Point3D { x: -ONE, y: ONE / 2, z: 0 });
    assert_eq!(vs[1].position, Point3D { x: -ONE + 2 * (ONE / 2), y: ONE / 2, z: 0 });
    // Vertical line at half width.
    assert_eq!(vs[2].position, Point3D { x: -ONE + ONE / 2, y: ONE, z: 0 });
    assert_eq!(vs[3].position, Point3D { x: -ONE + ONE / 2, y: 0, z: 0 });
    // The border was recolored black, the locator green.
    assert_eq!(r.triangles_buffer.vertices()[1].color, Color::black());
    assert_eq!(r.triangles_buffer.vertices()[32].color, Color::green());
}

#[test]
fn target_pinpoint_exhausts_the_triangle_arena() {
    let mut r = Renderer::new(800, 600);
    let size = Size { width: ONE / 2, height: ONE / 2 };
    // Each pin-point takes 47 of the 100 triangle vertices.
    assert!(TargetPinpoint::new(&mut r, size, circle_directions(30), circle_directions(15))
        .is_ok());
    assert!(TargetPinpoint::new(&mut r, size, circle_directions(30), circle_directions(15))
        .is_ok());
    let third = TargetPinpoint::new(&mut r, size, circle_directions(30), circle_directions(15));
    assert!(third.is_err());
}
