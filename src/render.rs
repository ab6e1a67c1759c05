//! The per-frame sequence of draw passes and the overlay toggles that shape it.
use vstd::prelude::*;

use crate::{DRAW_GNOMON_CENTER_START, DRAW_GNOMON_CORNER_START};

verus! {

/// Axis length, in world units, of the gnomon anchored at the world origin.
pub const CENTER_GNOMON_AXIS_LENGTH: u32 = 20;

/// Axis length of the gnomon that follows the camera's orientation in a corner.
pub const CORNER_GNOMON_AXIS_LENGTH: u32 = 1;

/// Which overlays are drawn on top of the always-present background.
#[derive(Clone, Copy, Debug, PartialEq, Eq, Structural)]
pub struct RenderToggles {
    pub draw_gnomon_center: bool,
    pub draw_gnomon_corner: bool,
}

/// One step of a frame, in the order the graphics context must perform them.
#[derive(Clone, Copy, Debug, PartialEq, Eq, Structural)]
pub enum Pass {
    /// Clear color and depth buffers to the background color.
    Clear,
    /// Set the viewport to the whole drawing buffer.
    Viewport { width: i32, height: i32 },
    DisableDepthTest,
    /// The full-screen fade quad, drawn behind everything.
    FadeBackground,
    EnableDepthTest,
    /// The gnomon; `corner` selects the orientation-only corner placement
    /// over the world-anchored one.
    Gnomon { corner: bool, axis_length: u32 },
}

impl Pass {
    /// Passes that emit geometry, as opposed to changing pipeline state.
    pub open spec fn is_draw(self) -> bool {
        self is FadeBackground || self is Gnomon
    }
}

pub open spec fn start_toggles() -> RenderToggles {
    RenderToggles {
        draw_gnomon_center: DRAW_GNOMON_CENTER_START,
        draw_gnomon_corner: DRAW_GNOMON_CORNER_START,
    }
}

pub open spec fn center_gnomon_pass() -> Pass {
    Pass::Gnomon { corner: false, axis_length: CENTER_GNOMON_AXIS_LENGTH }
}

pub open spec fn corner_gnomon_pass() -> Pass {
    Pass::Gnomon { corner: true, axis_length: CORNER_GNOMON_AXIS_LENGTH }
}

/// The fixed prefix of every frame: clear, size the viewport, draw the
/// background without depth testing, then turn depth testing back on.
pub open spec fn base_passes(width: i32, height: i32) -> Seq<Pass> {
    seq![
        Pass::Clear,
        Pass::Viewport { width, height },
        Pass::DisableDepthTest,
        Pass::FadeBackground,
        Pass::EnableDepthTest,
    ]
}

/// Every pass of one frame drawn with toggles `t` into a `width` x `height` buffer.
pub open spec fn frame_passes(t: RenderToggles, width: i32, height: i32) -> Seq<Pass> {
    base_passes(width, height)
        + (if t.draw_gnomon_center { seq![center_gnomon_pass()] } else { Seq::empty() })
        + (if t.draw_gnomon_corner { seq![corner_gnomon_pass()] } else { Seq::empty() })
}

/// The frame planner: holds the overlay toggles and turns them into passes.
pub struct WebRenderer {
    toggles: RenderToggles,
}

impl View for WebRenderer {
    type V = RenderToggles;

    closed spec fn view(&self) -> RenderToggles {
        self.toggles
    }
}

impl WebRenderer {
    /// A renderer with the start-up overlay toggles.
    pub fn new() -> (r: WebRenderer)
        ensures
            r@ == start_toggles(),
    {
        WebRenderer {
            toggles: RenderToggles {
                draw_gnomon_center: DRAW_GNOMON_CENTER_START,
                draw_gnomon_corner: DRAW_GNOMON_CORNER_START,
            },
        }
    }

    pub fn toggles(&self) -> (r: RenderToggles)
        ensures
            r == self@,
    {
        self.toggles
    }

    pub fn set_draw_gnomon_center(&mut self, draw_flag: bool)
        ensures
            final(self)@ == (RenderToggles { draw_gnomon_center: draw_flag, ..old(self)@ }),
    {
        self.toggles.draw_gnomon_center = draw_flag;
    }

    pub fn set_draw_gnomon_corner(&mut self, draw_flag: bool)
        ensures
            final(self)@ == (RenderToggles { draw_gnomon_corner: draw_flag, ..old(self)@ }),
    {
        self.toggles.draw_gnomon_corner = draw_flag;
    }

    /// The passes of one frame, for a drawing buffer of the given size.
    /// The last state change leaves depth testing enabled, so nothing leaks
    /// into the next frame.
    pub fn render(&self, width: i32, height: i32) -> (r: Vec<Pass>)
        ensures
            r@ == frame_passes(self@, width, height),
    {
        let mut passes: Vec<Pass> = Vec::new();
        passes.push(Pass::Clear);
        passes.push(Pass::Viewport { width, height });
        passes.push(Pass::DisableDepthTest);
        passes.push(Pass::FadeBackground);
        passes.push(Pass::EnableDepthTest);
        if self.toggles.draw_gnomon_center {
            passes.push(Pass::Gnomon { corner: false, axis_length: CENTER_GNOMON_AXIS_LENGTH });
        }
        if self.toggles.draw_gnomon_corner {
            passes.push(Pass::Gnomon { corner: true, axis_length: CORNER_GNOMON_AXIS_LENGTH });
        }
        assert(passes@ =~= frame_passes(self@, width, height));
        passes
    }
}

} // verus!
