use md_wgpu::render::dual_buffer::{ArenaError, DualBuffer};
use md_wgpu::{Color, Point3D, Vertex};

/// One fixed-point unit: the raw value that stands for 1.0.
const ONE: i64 = 65536;

fn vertex(x: i64, y: i64, z: i64) -> Vertex {
    Vertex { position: Point3D { x, y, z }, color: Color { r: ONE, g: ONE, b: ONE } }
}

#[test]
fn new_arena_is_clean_and_empty() {
    let b = DualBuffer::new(10, 12);
    assert!(b.is_empty());
    assert!(!b.is_dirty());
    assert_eq!(b.indices_len(), 0);
    assert_eq!(b.vertices().len(), 10);
    assert_eq!(b.indices().len(), 12);
    for v in b.vertices().iter() {
        assert_eq!(v.position, Point3D { x: 0, y: 0, z: 0 });
        assert_eq!(v.color, Color { r: 0, g: 0, b: 0 });
    }
    for i in b.indices().iter() {
        assert_eq!(*i, 0);
    }
}

#[test]
fn allocate_hands_out_consecutive_ranges() {
    let mut b = DualBuffer::new(10, 12);
    let h0 = b.allocate(2, 0).unwrap();
    let h1 = b.allocate(3, 3).unwrap();
    let h2 = b.allocate(0, 0).unwrap();
    assert_eq!(h0, 0);
    assert_eq!(h1, 1);
    assert_eq!(h2, 2);
    assert_eq!(b.vertex_offset(0), 0);
    assert_eq!(b.vertex_offset(1), 2);
    assert_eq!(b.vertex_offset(2), 5);
    assert_eq!(b.indices_len(), 3);
    assert!(!b.is_empty());
    // Reserving is not a write: nothing to upload yet.
    assert!(!b.is_dirty());
}

#[test]
fn allocate_fails_when_either_dimension_lacks_room() {
    let mut b = DualBuffer::new(4, 6);
    assert_eq!(b.allocate(5, 6), Err(ArenaError::CapacityExceeded));
    assert_eq!(b.allocate(4, 7), Err(ArenaError::CapacityExceeded));
    // The failures changed nothing: the full reservation still fits.
    let h = b.allocate(4, 6).unwrap();
    assert_eq!(h, 0);
    assert_eq!(b.allocate(0, 1), Err(ArenaError::CapacityExceeded));
    assert_eq!(b.allocate(1, 0), Err(ArenaError::CapacityExceeded));
    // A zero reservation always fits.
    assert_eq!(b.allocate(0, 0), Ok(1));
}

#[test]
fn write_indices_rebases_by_vertex_offset() {
    let mut b = DualBuffer::new(10, 12);
    b.allocate(2, 0).unwrap();
    let h = b.allocate(3, 3).unwrap();
    b.write_indices(h, &[0, 1, 2]);
    assert_eq!(&b.indices()[0..3], &[2, 3, 4]);
    assert!(b.is_dirty());
}

#[test]
fn write_indices_leaves_other_ranges_alone() {
    let mut b = DualBuffer::new(10, 12);
    let h0 = b.allocate(2, 2).unwrap();
    let h1 = b.allocate(3, 3).unwrap();
    b.write_indices(h0, &[1, 0]);
    b.write_indices(h1, &[0, 1, 2]);
    assert_eq!(&b.indices()[0..2], &[1, 0]);
    assert_eq!(&b.indices()[2..5], &[2, 3, 4]);
}

#[test]
fn write_vertices_translates_positions_and_keeps_colors() {
    let mut b = DualBuffer::new(10, 12);
    b.allocate(1, 0).unwrap();
    let h = b.allocate(2, 0).unwrap();
    let src = [vertex(100, 200, 0), vertex(-50, 0, 7)];
    b.write_vertices_with_translation(h, &src, Point3D { x: 10, y: -20, z: 1 });
    let vs = b.vertices();
    // The slot of the first reservation is untouched.
    assert_eq!(vs[0].position, Point3D { x: 0, y: 0, z: 0 });
    assert_eq!(vs[1].position, Point3D { x: 110, y: 180, z: 1 });
    assert_eq!(vs[2].position, Point3D { x: -40, y: -20, z: 8 });
    assert_eq!(vs[1].color, Color { r: ONE, g: ONE, b: ONE });
    assert!(b.is_dirty());
}

#[test]
fn write_buffer_uploads_once_per_change() {
    let mut b = DualBuffer::new(10, 12);
    // Nothing reserved: nothing to upload.
    assert!(!b.write_buffer());
    let h = b.allocate(3, 3).unwrap();
    assert!(!b.write_buffer());
    b.write_indices(h, &[0, 1, 2]);
    assert!(b.is_dirty());
    assert!(b.write_buffer());
    assert!(!b.is_dirty());
    // Clean again: a second upload would be wasted, so none is asked for.
    assert!(!b.write_buffer());
}

#[test]
fn write_buffer_keeps_dirty_flag_while_empty() {
    let mut b = DualBuffer::new(10, 12);
    // Vertices reserved but no indices: the arena counts as empty.
    let h = b.allocate(3, 0).unwrap();
    b.write_vertices_with_translation(h, &[vertex(1, 2, 3); 3], Point3D { x: 0, y: 0, z: 0 });
    assert!(b.is_dirty());
    assert!(b.is_empty());
    assert!(!b.write_buffer());
    assert!(b.is_dirty());
}
