use ete_client::render::{Pass, RenderToggles, WebRenderer, CENTER_GNOMON_AXIS_LENGTH, CORNER_GNOMON_AXIS_LENGTH};

fn base(width: i32, height: i32) -> Vec<Pass> {
    vec![
        Pass::Clear,
        Pass::Viewport { width, height },
        Pass::DisableDepthTest,
        Pass::FadeBackground,
        Pass::EnableDepthTest,
    ]
}

fn draws(passes: &[Pass]) -> Vec<Pass> {
    passes
        .iter()
        .copied()
        .filter(|p| matches!(p, Pass::FadeBackground | Pass::Gnomon { .. }))
        .collect()
}

#[test]
fn new_renderer_has_start_toggles() {
    let r = WebRenderer::new();
    assert_eq!(
        r.toggles(),
        RenderToggles { draw_gnomon_center: false, draw_gnomon_corner: true }
    );
}

#[test]
fn start_frame_draws_background_then_corner_gnomon() {
    let r = WebRenderer::new();
    let passes = r.render(820, 820);
    let mut expected = base(820, 820);
    expected.push(Pass::Gnomon { corner: true, axis_length: 1 });
    assert_eq!(passes, expected);
    assert_eq!(
        draws(&passes),
        vec![Pass::FadeBackground, Pass::Gnomon { corner: true, axis_length: 1 }]
    );
}

#[test]
fn both_gnomons_center_first() {
    let mut r = WebRenderer::new();
    r.set_draw_gnomon_center(true);
    let passes = r.render(640, 480);
    let mut expected = base(640, 480);
    expected.push(Pass::Gnomon { corner: false, axis_length: 20 });
    expected.push(Pass::Gnomon { corner: true, axis_length: 1 });
    assert_eq!(passes, expected);
}

#[test]
fn no_overlays_leaves_only_background() {
    let mut r = WebRenderer::new();
    r.set_draw_gnomon_corner(false);
    assert_eq!(r.toggles(), RenderToggles { draw_gnomon_center: false, draw_gnomon_corner: false });
    assert_eq!(r.render(1, 1), base(1, 1));
    assert_eq!(draws(&r.render(1, 1)), vec![Pass::FadeBackground]);
}

#[test]
fn frame_ends_with_depth_test_enabled_before_overlays() {
    let mut r = WebRenderer::new();
    r.set_draw_gnomon_center(true);
    let passes = r.render(0, 0);
    let last_state = passes
        .iter()
        .rev()
        .find(|p| matches!(p, Pass::EnableDepthTest | Pass::DisableDepthTest))
        .copied();
    assert_eq!(last_state, Some(Pass::EnableDepthTest));
    assert_eq!(passes[0], Pass::Clear);
}

#[test]
fn center_toggle_off_then_on_changes_only_center_pass() {
    let mut r = WebRenderer::new();
    r.set_draw_gnomon_center(false);
    let before = r.render(800, 800);
    r.set_draw_gnomon_center(true);
    let after = r.render(800, 800);
    let mut expected = before.clone();
    expected.insert(5, Pass::Gnomon { corner: false, axis_length: 20 });
    assert_eq!(after, expected);
    let corner = Pass::Gnomon { corner: true, axis_length: 1 };
    assert!(before.contains(&corner));
    assert!(after.contains(&corner));
}

#[test]
fn axis_lengths() {
    assert_eq!(CENTER_GNOMON_AXIS_LENGTH, 20);
    assert_eq!(CORNER_GNOMON_AXIS_LENGTH, 1);
}
