use md_wgpu::{Color, Point2D, Point3D, Size};

/// One fixed-point unit: the raw value that stands for 1.0.
const ONE: i64 = 65536;

#[test]
fn color_rgb_scales_components_exactly() {
    let c = Color::rgb(255, 0, 128);
    assert_eq!(c.r, ONE);
    assert_eq!(c.g, 0);
    // 128 * 65536 / 255, truncated.
    assert_eq!(c.b, 32896);
    let half = Color::rgb(127, 127, 127);
    assert_eq!(half.r, 127 * ONE / 255);
}

#[test]
fn color_constants() {
    assert_eq!(Color::red(), Color { r: ONE, g: 0, b: 0 });
    assert_eq!(Color::green(), Color { r: 0, g: ONE, b: 0 });
    assert_eq!(Color::blue(), Color { r: 0, g: 0, b: ONE });
    assert_eq!(Color::black(), Color { r: 0, g: 0, b: 0 });
    assert_eq!(Color::default(), Color { r: ONE, g: ONE, b: ONE });
}

#[test]
fn vector_conversion_doubles_and_flips_y() {
    let p = Point2D { x: ONE / 2, y: ONE / 4 };
    let v = p.to_3d_vector();
    assert_eq!(v, Point3D { x: ONE, y: -ONE / 2, z: 0 });
    assert_eq!(Point3D::wgpu_vector(p), v);
}

#[test]
fn point_conversion_maps_unit_square_to_clip_square() {
    // (0,0), the top-left corner of unit space, is (-1, 1) in clip space.
    let tl = Point3D::from_point(Point2D { x: 0, y: 0 });
    assert_eq!(tl, Point3D { x: -ONE, y: ONE, z: 0 });
    // (1,1), the bottom-right corner, is (1, -1).
    let br = Point3D::from_point(Point2D { x: ONE, y: ONE });
    assert_eq!(br, Point3D { x: ONE, y: -ONE, z: 0 });
    // The middle stays the middle.
    let mid = Point3D::from_point(Point2D { x: ONE / 2, y: ONE / 2 });
    assert_eq!(mid, Point3D { x: 0, y: 0, z: 0 });
}

#[test]
fn point_conversion_round_trips() {
    let p = Point2D { x: ONE / 4, y: 3 * ONE / 4 };
    let clip = Point3D::from_point(p);
    assert_eq!(Point2D::from_point3(clip), p);
}

#[test]
fn size_conversions() {
    let s = Size { width: ONE / 2, height: ONE / 4 };
    assert_eq!(Point3D::from_size(s), Point3D { x: ONE, y: -ONE / 2, z: 0 });
    assert_eq!(Point2D::from_size(s), Point2D { x: ONE / 2, y: ONE / 4 });
    assert_eq!(Size::from_pixels(1600, 900), Size { width: 1600 * ONE, height: 900 * ONE });
}

#[test]
fn point_arithmetic() {
    let a = Point2D { x: 100, y: -200 };
    let b = Point2D { x: 5, y: 70 };
    assert_eq!(a.add(b), Point2D { x: 105, y: -130 });
    // Fixed-point product: 0.5 * 0.5 = 0.25.
    let h = Point2D { x: ONE / 2, y: ONE / 2 };
    assert_eq!(h.mul(h), Point2D { x: ONE / 4, y: ONE / 4 });
    let s = Point3D { x: 1, y: 2, z: 3 }.add(Point3D { x: 10, y: 20, z: 30 });
    assert_eq!(s, Point3D { x: 11, y: 22, z: 33 });
}

#[test]
fn size_arithmetic_truncates_towards_zero() {
    let s = Size { width: 100, height: 7 };
    // 100 * 65536 / 3 = 2184533.33..., truncated.
    let q = s.div(Size { width: 3, height: 7 });
    assert_eq!(q.width, 2184533);
    assert_eq!(q.height, ONE);
    // 0.5 * 0.5 = 0.25 in each dimension.
    let half = Size { width: ONE / 2, height: ONE / 2 };
    assert_eq!(half.mul(half), Size { width: ONE / 4, height: ONE / 4 });
    // Dividing by the scalar 10.0 is a tenth.
    let t = Size { width: 10 * ONE, height: 5 * ONE }.div_scalar(10 * ONE);
    assert_eq!(t, Size { width: ONE, height: ONE / 2 });
}
