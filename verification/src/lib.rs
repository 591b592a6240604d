//! A thin convenience layer over a native windowing library and graphics API:
//! a vertex-layout-driven mesh description, a window builder, and frame-based
//! press/release input tracking. The arithmetic that turns a vertex layout
//! into a byte stride and per-attribute byte offsets is specified and proved
//! here; the calls into the native libraries live outside this crate.

pub mod mesh;
pub mod window;
