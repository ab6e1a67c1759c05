use vstd::prelude::*;

pub mod app;
pub mod laws;
pub mod render;

verus! {

/// Width in pixels of the drawing surface the client creates.
pub const CANVAS_WIDTH: i32 = 820;

/// Height in pixels of the drawing surface the client creates.
pub const CANVAS_HEIGHT: i32 = 820;

/// Whether the world-anchored gnomon is drawn when the viewer starts.
pub const DRAW_GNOMON_CENTER_START: bool = false;

/// Whether the corner gnomon is drawn when the viewer starts.
pub const DRAW_GNOMON_CORNER_START: bool = true;

} // verus!
