//! The controller: turns user intents into camera calls and overlay toggles.
//!
//! Scalar payloads (zoom delta, frame time, viewport size, field of view)
//! are carried as an opaque `S` and handed on to the camera unchanged.
use vstd::prelude::*;

use crate::render::{frame_passes, Pass, RenderToggles, WebRenderer};

verus! {

/// A mouse button as the camera distinguishes them.
#[derive(Clone, Copy, Debug, PartialEq, Eq, Structural)]
pub enum MouseButton {
    Left,
    Right,
}

#[derive(Clone, Copy, Debug, PartialEq, Eq, Structural)]
pub enum ButtonState {
    Pressed,
    Released,
}

/// An intent coming from the page: pointer, wheel, per-frame tick and control panel.
#[derive(Clone, Copy, Debug, PartialEq, Eq)]
pub enum Message<S> {
    /// Pointer pressed at device pixel `(x, y)`.
    MouseDown(i32, i32),
    MouseUp,
    /// Pointer moved to device pixel `(x, y)`.
    MouseMove(i32, i32),
    /// Wheel moved by the given pixel delta.
    Zoom(S),
    /// Frame tick: elapsed time, then drawing buffer width and height.
    Update(S, S, S),
    DrawGnomonCenter(bool),
    DrawGnomonCorner(bool),
    /// Animate the camera back to its default pose.
    DefaultCam,
    /// Report the camera's basis and position.
    Debug,
    SetFov(S),
}

/// One call that the controller makes on the orbit camera, in order.
#[derive(Clone, Copy, Debug, PartialEq, Eq)]
pub enum CameraCommand<S> {
    MouseInput(MouseButton, ButtonState),
    MouseMove(i32, i32),
    Scroll(S),
    Update(S, S, S),
    TransitionToDefault,
    SetFieldOfView(S),
    /// Read the camera's up, right and position for a diagnostic report.
    Report,
}

/// The camera calls that `m` stands for.
pub open spec fn camera_commands<S>(m: Message<S>) -> Seq<CameraCommand<S>> {
    match m {
        Message::MouseDown(x, y) => seq![
            CameraCommand::MouseInput(MouseButton::Left, ButtonState::Pressed),
            CameraCommand::MouseMove(x, y),
        ],
        Message::MouseUp => seq![
            CameraCommand::MouseInput(MouseButton::Left, ButtonState::Released),
        ],
        Message::MouseMove(x, y) => seq![CameraCommand::MouseMove(x, y)],
        Message::Zoom(d) => seq![CameraCommand::Scroll(d)],
        Message::Update(dt, w, h) => seq![CameraCommand::Update(dt, w, h)],
        Message::DrawGnomonCenter(_) => Seq::empty(),
        Message::DrawGnomonCorner(_) => Seq::empty(),
        Message::DefaultCam => seq![CameraCommand::TransitionToDefault],
        Message::Debug => seq![CameraCommand::Report],
        Message::SetFov(f) => seq![CameraCommand::SetFieldOfView(f)],
    }
}

/// The overlay toggles after `m`; they exist only once a renderer is attached.
pub open spec fn toggles_after<S>(t: Option<RenderToggles>, m: Message<S>) -> Option<RenderToggles> {
    match (t, m) {
        (Some(v), Message::DrawGnomonCenter(b)) => Some(
            RenderToggles { draw_gnomon_center: b, ..v },
        ),
        (Some(v), Message::DrawGnomonCorner(b)) => Some(
            RenderToggles { draw_gnomon_corner: b, ..v },
        ),
        _ => t,
    }
}

/// The passes of one frame, or none while no renderer is attached.
pub open spec fn app_frame(t: Option<RenderToggles>, width: i32, height: i32) -> Seq<Pass> {
    match t {
        Some(v) => frame_passes(v, width, height),
        None => Seq::empty(),
    }
}

/// Owns the renderer's toggles and decides what each intent does.
pub struct App {
    renderer: Option<WebRenderer>,
}

impl View for App {
    type V = Option<RenderToggles>;

    closed spec fn view(&self) -> Option<RenderToggles> {
        match self.renderer {
            Some(r) => Some(r@),
            None => None,
        }
    }
}

impl App {
    /// A controller with no renderer attached yet.
    pub fn new() -> (r: App)
        ensures
            r@ is None,
    {
        App { renderer: None }
    }

    pub fn set_renderer(&mut self, renderer: WebRenderer)
        ensures
            final(self)@ == Some(renderer@),
    {
        self.renderer = Some(renderer);
    }

    /// The overlay toggles, once a renderer is attached.
    pub fn toggles(&self) -> (r: Option<RenderToggles>)
        ensures
            r == self@,
    {
        match &self.renderer {
            Some(renderer) => Some(renderer.toggles()),
            None => None,
        }
    }

    /// Applies `message`: overlay toggles change here, and the returned
    /// commands are what the camera must be given, in order.
    pub fn handle_message<S: Copy>(&mut self, message: &Message<S>) -> (r: Vec<CameraCommand<S>>)
        ensures
            r@ == camera_commands(*message),
            final(self)@ == toggles_after(old(self)@, *message),
    {
        let mut commands: Vec<CameraCommand<S>> = Vec::new();
        match message {
            Message::MouseDown(x, y) => {
                commands.push(CameraCommand::MouseInput(MouseButton::Left, ButtonState::Pressed));
                commands.push(CameraCommand::MouseMove(*x, *y));
            },
            Message::MouseUp => {
                commands.push(CameraCommand::MouseInput(MouseButton::Left, ButtonState::Released));
            },
            Message::MouseMove(x, y) => {
                commands.push(CameraCommand::MouseMove(*x, *y));
            },
            Message::Zoom(delta) => {
                commands.push(CameraCommand::Scroll(*delta));
            },
            Message::Update(time_delta, window_width, window_height) => {
                commands.push(CameraCommand::Update(*time_delta, *window_width, *window_height));
            },
            Message::DrawGnomonCenter(draw_flag) => {
                if let Some(renderer) = &mut self.renderer {
                    renderer.set_draw_gnomon_center(*draw_flag);
                }
            },
            Message::DrawGnomonCorner(draw_flag) => {
                if let Some(renderer) = &mut self.renderer {
                    renderer.set_draw_gnomon_corner(*draw_flag);
                }
            },
            Message::DefaultCam => {
                commands.push(CameraCommand::TransitionToDefault);
            },
            Message::Debug => {
                commands.push(CameraCommand::Report);
            },
            Message::SetFov(fov) => {
                commands.push(CameraCommand::SetFieldOfView(*fov));
            },
        }
        assert(commands@ =~= camera_commands(*message));
        commands
    }

    /// The passes of the next frame for a drawing buffer of the given size.
    pub fn render(&self, width: i32, height: i32) -> (r: Vec<Pass>)
        ensures
            r@ == app_frame(self@, width, height),
    {
        match &self.renderer {
            Some(renderer) => renderer.render(width, height),
            None => Vec::new(),
        }
    }
}

} // verus!
