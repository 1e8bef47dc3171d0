//! Verified core of a small sphere ray tracer: the color value type, the
//! fixed supersampling offset grid, the row-major pixel walk, the tracer's
//! per-step decisions (depth exhaustion, nearest-hit selection with the
//! first-object tie-break), and the packing of rendered pixels into dense
//! byte buffers for an image encoder or a windowed framebuffer.
//!
//! The floating-point arithmetic (vectors, rays, sphere root finding, the
//! color accumulation and the camera loop) lives with the unverified
//! rendering front end, which hands this crate plain values: hit distances as
//! order-preserving integer keys, finished pixels as byte-channel colors.

pub mod buffer;
pub mod color;
pub mod grid;
pub mod trace;

pub use buffer::rgb_bytes;
pub use buffer::rgba_bytes;
pub use color::Color;
pub use grid::gen_2d_range;
pub use grid::pixel_coords;
pub use trace::nearest_hit;
pub use trace::trace_step;
pub use trace::TraceStep;
