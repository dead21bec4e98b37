//! A small 2D vector-shape renderer core.
//!
//! Shapes (line sets, polygons, rectangles) share a pair of fixed-capacity
//! vertex/index buffer arenas through a bump allocator. Each shape owns a
//! CPU-side vertex mirror and a handle into an arena; a dirty flag on the
//! shape gates the write into the arena, and a dirty flag on the arena gates
//! the upload of the mirror to the GPU. The frame controller sequences the
//! uploads and draw passes of a frame.
//!
//! Coordinates are fixed-point numbers with 16 fractional bits; the GPU side,
//! the windowing system and the layout engine live outside this crate and
//! receive plain values from it.

pub mod render;
pub mod shape;
pub mod widget;

pub use render::Color;
pub use render::DualBuffer;
pub use render::Point2D;
pub use render::Renderer;
pub use render::Point3D;
pub use render::Vertex;
pub use shape::Lines;
pub use shape::Polygon;
pub use shape::Rectangle;
pub use shape::Shape;
pub use shape::Size;
pub use widget::TargetPinpoint;
pub use widget::Test;
pub use widget::Widget;
