//! A software rasterizer: triangles with per-vertex attributes are
//! scan-converted into fragments, attributes are interpolated with
//! barycentric weights, and fragments are composited into an RGBA8
//! pixel buffer.
//!
//! All geometry and attribute values are fixed-point: a value `v`
//! stands for the real number `v / SCALE`. This keeps every step of
//! the pipeline exact integer arithmetic.

pub mod image;
pub mod primitives;
pub mod rasterization;
pub mod rendering;
pub mod util;
