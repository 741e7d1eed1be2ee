//! Core of a real-time maze renderer: a two-pass render graph combined with a
//! compute-driven "erasure" mechanism that fades previously drawn geometry.
//!
//! Drawable instances are tagged with small integer group identifiers issued by
//! [`graphics::GroupCounter`].  Each frame, rasterized eraser geometry produces a
//! per-group touch signal which the eraser compute stage merges into a persistent
//! per-group decay value in `[0, 1]`; the composition pass reads that value to
//! fade the corresponding geometry.  The modules here model and verify the parts
//! of that pipeline that make decisions on plain data: identifier allocation,
//! the touch/decay buffer algebra, render-graph and resource wiring, per-frame
//! command recording, and the frame scheduling state machine.  Device submission,
//! windowing and asset loading stay outside the library.

pub mod audio;
pub mod entity;
pub mod eraser;
pub mod frame;
pub mod graphics;
pub mod primitives;
pub mod render_graph;
pub mod resource;
pub mod resources;
pub mod system;
pub mod util;
