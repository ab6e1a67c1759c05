//! Properties that relate several calls of the controller and the renderer.
use vstd::prelude::*;

use crate::app::{app_frame, toggles_after, Message};
use crate::render::{
    center_gnomon_pass, corner_gnomon_pass, frame_passes, start_toggles, Pass, RenderToggles,
};

verus! {

/// Switching the center gnomon off and then on again between two frames
/// changes only whether the center gnomon is drawn: the later frame is the
/// earlier one with the center gnomon pass put back right after the
/// background passes, the earlier frame has no center gnomon, and both draw
/// the corner gnomon exactly when it was enabled before.
pub proof fn lemma_center_toggle_changes_only_center_pass<S>(
    t: RenderToggles,
    width: i32,
    height: i32,
)
    ensures
        ({
            let off = toggles_after(Some(t), Message::<S>::DrawGnomonCenter(false));
            let on = toggles_after(off, Message::<S>::DrawGnomonCenter(true));
            let before = app_frame(off, width, height);
            let after = app_frame(on, width, height);
            &&& after == before.insert(5, center_gnomon_pass())
            &&& !before.contains(center_gnomon_pass())
            &&& before.contains(corner_gnomon_pass()) == t.draw_gnomon_corner
            &&& after.contains(corner_gnomon_pass()) == t.draw_gnomon_corner
        }),
{
    let off = toggles_after(Some(t), Message::<S>::DrawGnomonCenter(false));
    let on = toggles_after(off, Message::<S>::DrawGnomonCenter(true));
    let before = app_frame(off, width, height);
    let after = app_frame(on, width, height);
    assert(after =~= before.insert(5, center_gnomon_pass()));
    assert(before[3] == Pass::FadeBackground);
    if t.draw_gnomon_corner {
        assert(before[5] == corner_gnomon_pass());
        assert(after[6] == corner_gnomon_pass());
    }
}

/// With the start-up toggles every frame draws exactly two things, the fade
/// background and then the corner gnomon.
pub proof fn lemma_start_frame_draws(width: i32, height: i32)
    ensures
        frame_passes(start_toggles(), width, height).filter(|p: Pass| p.is_draw()) == seq![
            Pass::FadeBackground,
            corner_gnomon_pass(),
        ],
{
    let s = frame_passes(start_toggles(), width, height);
    reveal_with_fuel(Seq::filter, 7);
    assert(s.len() == 6);
    assert(s.filter(|p: Pass| p.is_draw()) =~= seq![Pass::FadeBackground, corner_gnomon_pass()]);
}

/// Every frame first clears, sizes the viewport and draws the background
/// with depth testing off; depth testing is then switched back on before any
/// gnomon is drawn and stays on to the end of the frame.
pub proof fn lemma_frame_depth_order(t: RenderToggles, width: i32, height: i32)
    ensures
        ({
            let f = frame_passes(t, width, height);
            &&& 5 <= f.len() <= 7
            &&& f[0] == Pass::Clear
            &&& f[1] == (Pass::Viewport { width, height })
            &&& f[2] == Pass::DisableDepthTest
            &&& f[3] == Pass::FadeBackground
            &&& f[4] == Pass::EnableDepthTest
            &&& forall|i: int| 5 <= i < f.len() ==> (#[trigger] f[i]) is Gnomon
        }),
{
}

} // verus!
