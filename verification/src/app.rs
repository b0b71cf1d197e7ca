//! The top-level application state machine.
//!
//! The application bridges window and device lifecycle signals to render
//! calls. It owns at most one [`Renderer`] (absent until the host reports
//! the window ready and delivers a constructed renderer), the
//! [`CameraController`], and the timestamp of the last render. Each entry
//! point maps one host signal to a state change and an [`Action`] for the
//! host to carry out; GPU-context construction, surface configuration and
//! frame submission happen on the host's side of that boundary, and their
//! outcomes come back as ordinary events.
//!
//! The machine passes through three phases: `Uninitialized` (no renderer)
//! until a constructed renderer is delivered, then `Active` — the steady
//! state that the redraw/resize/input self-loops run in — and finally the
//! terminal `Exiting`, entered on a close request, on the cancel key, or on
//! fatal resource exhaustion reported by a render call.

use vstd::prelude::*;
use crate::camera::{after_motion, lemma_motion_additive, lemma_motion_order_independent,
    CameraController};
use crate::clock::{clock_now, elapsed_since};
use crate::renderer::{error_class, resize_request, ErrorClass, Renderer, SurfaceConfig,
    SurfaceError};

verus! {

/// Where the application stands in its lifecycle.
#[derive(Clone, Copy, Debug, PartialEq, Eq, Structural)]
pub enum Phase {
    /// No renderer yet: readiness and close signals are acted upon,
    /// everything else is a no-op.
    Uninitialized,
    /// A renderer is installed and the event-driven render loop is running.
    Active,
    /// Terminal: every further event is a no-op.
    Exiting,
}

/// What the host must do after handing an event to the application.
#[derive(Clone, Copy, Debug, PartialEq, Eq, Structural)]
pub enum Action {
    /// Nothing; keep delivering events.
    Continue,
    /// Construct a renderer for the window and deliver it to
    /// [`App::on_renderer_ready`], synchronously or deferred.
    CreateRenderer,
    /// Reconfigure the presentation surface for the given drawable size.
    ConfigureSurface(SurfaceConfig),
    /// Render a frame with the given consumed orientation delta, then report
    /// the outcome to [`App::on_render_result`].
    Render(i64, i64),
    /// Stop the event loop; the application has entered `Exiting`.
    Exit,
}

/// The application state machine.
pub struct App {
    /// Present exactly while the machine is past `Uninitialized`.
    pub renderer: Option<Renderer>,
    /// Pending view-orientation delta, consumed on each redraw.
    pub camera: CameraController,
    /// When the last redraw was handled, for per-frame delta time.
    pub last_render_time: instant::Instant,
    /// The key code whose press requests termination.
    pub cancel_key: u32,
    /// Whether the terminal phase has been entered.
    pub exiting: bool,
}

impl App {
    /// The phase the state is in.
    pub open spec fn phase(self) -> Phase {
        if self.exiting {
            Phase::Exiting
        } else if self.renderer is Some {
            Phase::Active
        } else {
            Phase::Uninitialized
        }
    }
}

/// The action a window-ready signal provokes: renderer construction is
/// requested the first time, when none is installed yet; the state itself
/// does not change until the constructed renderer is delivered.
pub open spec fn ready_action(a: App) -> Action {
    if a.phase() is Uninitialized {
        Action::CreateRenderer
    } else {
        Action::Continue
    }
}

/// The state after a constructed renderer is delivered: installed wholesale
/// unless the machine is already exiting.
pub open spec fn renderer_ready_step(a: App, r: Renderer) -> App {
    if a.exiting {
        a
    } else {
        App { renderer: Some(r), ..a }
    }
}

/// The step a window-close request makes: from any phase that is not
/// already terminal, the application enters `Exiting` and the host is told
/// to stop the loop. A window may be closed before the constructed renderer
/// has ever been delivered, so this transition does not wait for the active
/// phase.
pub open spec fn close_step(a: App) -> (App, Action) {
    if a.phase() is Exiting {
        (a, Action::Continue)
    } else {
        (App { exiting: true, ..a }, Action::Exit)
    }
}

/// The step a resize signal of `(width, height)` makes: in the active phase
/// the renderer stores the new drawable size and the surface is reconfigured
/// exactly when both dimensions are non-zero.
pub open spec fn resized_step(a: App, width: u32, height: u32) -> (App, Action) {
    if a.phase() is Active {
        (
            App { renderer: Some(Renderer { width, height }), ..a },
            match resize_request(width, height) {
                Some(cfg) => Action::ConfigureSurface(cfg),
                None => Action::Continue,
            },
        )
    } else {
        (a, Action::Continue)
    }
}

/// The step a device-level pointer-motion signal makes: accumulated into
/// the camera while active, dropped otherwise.
pub open spec fn pointer_motion_step(a: App, dx: i64, dy: i64) -> App {
    if a.phase() is Active {
        App { camera: after_motion(a.camera, dx, dy), ..a }
    } else {
        a
    }
}

/// The step a key signal makes: a press of the cancel key in the active
/// phase requests termination; everything else is a no-op.
pub open spec fn key_step(a: App, code: u32, pressed: bool) -> (App, Action) {
    if a.phase() is Active && pressed && code == a.cancel_key {
        (App { exiting: true, ..a }, Action::Exit)
    } else {
        (a, Action::Continue)
    }
}

/// The action a redraw request provokes: in the active phase a frame is
/// rendered with the camera delta pending at that moment; in any other
/// phase — in particular once exiting — no render is ever issued.
pub open spec fn redraw_action(a: App) -> Action {
    if a.phase() is Active {
        Action::Render(a.camera.dx, a.camera.dy)
    } else {
        Action::Continue
    }
}

/// The reconfiguration a recoverable surface failure provokes: the request
/// for the renderer's own stored size, or nothing while a stored dimension
/// is zero.
pub open spec fn recovery_action(a: App) -> Action {
    match a.renderer {
        Some(r) => match resize_request(r.width, r.height) {
            Some(cfg) => Action::ConfigureSurface(cfg),
            None => Action::Continue,
        },
        None => Action::Continue,
    }
}

/// The step the outcome of a render call makes, the core recovery policy:
/// recoverable surface states reconfigure with the stored size and carry
/// on, resource exhaustion is fatal, transient failures are ignored. In any
/// phase but active the outcome is stale and dropped.
pub open spec fn render_result_step(a: App, result: Result<(), SurfaceError>) -> (App, Action) {
    if a.phase() is Active {
        match result {
            Ok(_) => (a, Action::Continue),
            Err(e) => match error_class(e) {
                ErrorClass::RecoverableSurfaceState => (a, recovery_action(a)),
                ErrorClass::FatalResourceExhaustion => (App { exiting: true, ..a }, Action::Exit),
                ErrorClass::IgnorableTransient => (a, Action::Continue),
            },
        }
    } else {
        (a, Action::Continue)
    }
}

impl App {
    /// A freshly started application: no renderer, no pending motion, the
    /// clock read once as the initial render timestamp. `cancel_key` is the
    /// host's code for the designated cancel key (conventionally the
    /// platform's escape key).
    pub fn new(cancel_key: u32) -> (a: App)
        ensures
            a.renderer is None,
            a.camera.dx == 0,
            a.camera.dy == 0,
            a.cancel_key == cancel_key,
            a.exiting == false,
            a.phase() is Uninitialized,
    {
        App {
            renderer: None,
            camera: CameraController::new(),
            last_render_time: clock_now(),
            cancel_key,
            exiting: false,
        }
    }

    /// The window is ready to present. Requests renderer construction the
    /// first time; the state is unchanged until the renderer is delivered.
    pub fn on_ready(&mut self) -> (act: Action)
        ensures
            *final(self) == *old(self),
            act == ready_action(*old(self)),
    {
        if !self.exiting && self.renderer.is_none() {
            Action::CreateRenderer
        } else {
            Action::Continue
        }
    }

    /// A constructed renderer is delivered (the completion of the
    /// construction requested by [`App::on_ready`], whether it ran
    /// synchronously or deferred). Installs it wholesale unless the machine
    /// is already exiting.
    pub fn on_renderer_ready(&mut self, r: Renderer)
        ensures
            *final(self) == renderer_ready_step(*old(self), r),
    {
        if !self.exiting {
            self.renderer = Some(r);
        }
    }

    /// The host asks the window to close. Honoured from any phase that is
    /// not already terminal — even while no renderer is installed yet.
    pub fn on_close_requested(&mut self) -> (act: Action)
        ensures
            (*final(self), act) == close_step(*old(self)),
    {
        if !self.exiting {
            self.exiting = true;
            Action::Exit
        } else {
            Action::Continue
        }
    }

    /// The window's drawable size changed to `(width, height)` physical
    /// pixels.
    pub fn on_resized(&mut self, width: u32, height: u32) -> (act: Action)
        ensures
            (*final(self), act) == resized_step(*old(self), width, height),
    {
        if self.exiting {
            return Action::Continue;
        }
        match &mut self.renderer {
            Some(r) => match r.resize(width, height) {
                Some(cfg) => Action::ConfigureSurface(cfg),
                None => Action::Continue,
            },
            None => Action::Continue,
        }
    }

    /// Raw pointer motion from the device-level channel (so deltas are
    /// unaffected by OS pointer acceleration or screen-edge clamping).
    pub fn on_pointer_motion(&mut self, dx: i64, dy: i64)
        ensures
            *final(self) == pointer_motion_step(*old(self), dx, dy),
    {
        if !self.exiting && self.renderer.is_some() {
            self.camera.process_motion(dx, dy);
        }
    }

    /// A key changed state. A press of the cancel key while active requests
    /// termination.
    pub fn on_key(&mut self, code: u32, pressed: bool) -> (act: Action)
        ensures
            (*final(self), act) == key_step(*old(self), code, pressed),
    {
        if !self.exiting && self.renderer.is_some() && pressed && code == self.cancel_key {
            self.exiting = true;
            Action::Exit
        } else {
            Action::Continue
        }
    }

    /// The host requests a redraw. In the active phase this advances the
    /// renderer by the time elapsed since the previous redraw, consumes the
    /// pending camera delta, and asks the host to render a frame with it;
    /// the outcome must then be reported to [`App::on_render_result`].
    /// Whatever the clock returns, the rest of the state is governed as
    /// stated, and no render is requested outside the active phase.
    pub fn on_redraw_requested(&mut self) -> (act: Action)
        ensures
            act == redraw_action(*old(self)),
            !(old(self).phase() is Active) ==> *final(self) == *old(self),
            old(self).phase() is Active ==> final(self).renderer == old(self).renderer
                && final(self).camera.dx == 0 && final(self).camera.dy == 0
                && final(self).exiting == old(self).exiting
                && final(self).cancel_key == old(self).cancel_key,
    {
        if self.exiting {
            return Action::Continue;
        }
        match &mut self.renderer {
            Some(r) => {
                let now = clock_now();
                let dt = elapsed_since(now, self.last_render_time);
                self.last_render_time = now;
                let delta = r.update(dt, &mut self.camera);
                Action::Render(delta.0, delta.1)
            },
            None => Action::Continue,
        }
    }

    /// The host reports how the render call went. Applies the recovery
    /// policy: Lost and Outdated reconfigure the surface with the stored
    /// size and continue; OutOfMemory enters the terminal phase; Timeout
    /// and any unclassified failure change nothing.
    pub fn on_render_result(&mut self, result: Result<(), SurfaceError>) -> (act: Action)
        ensures
            (*final(self), act) == render_result_step(*old(self), result),
    {
        if self.exiting {
            return Action::Continue;
        }
        let r = match &self.renderer {
            Some(r) => r,
            None => {
                return Action::Continue;
            },
        };
        match result {
            Ok(_) => Action::Continue,
            Err(SurfaceError::Lost) | Err(SurfaceError::Outdated) => {
                match r.reconfigure_request() {
                    Some(cfg) => Action::ConfigureSurface(cfg),
                    None => Action::Continue,
                }
            },
            Err(SurfaceError::OutOfMemory) => {
                self.exiting = true;
                Action::Exit
            },
            Err(SurfaceError::Timeout) => Action::Continue,
            Err(SurfaceError::Other) => Action::Continue,
        }
    }
}

/// After a non-zero resize the renderer stores exactly `(width, height)`,
/// and a render call that then reports a recoverable surface state is
/// answered by a reconfiguration request with that exact stored size.
pub proof fn lemma_recovery_uses_stored_size(a: App, width: u32, height: u32, e: SurfaceError)
    requires
        a.phase() is Active,
        width > 0,
        height > 0,
        error_class(e) == ErrorClass::RecoverableSurfaceState,
    ensures
        resized_step(a, width, height).0.renderer == Some(Renderer { width, height }),
        render_result_step(resized_step(a, width, height).0, Err(e)).1
            == Action::ConfigureSurface(SurfaceConfig { width, height }),
        render_result_step(resized_step(a, width, height).0, Err(e)).0
            == resized_step(a, width, height).0,
{
}

/// A fatal OutOfMemory render outcome makes the application exit: the state
/// becomes terminal and a redraw request in it never issues a render.
pub proof fn lemma_out_of_memory_is_fatal(a: App)
    requires
        a.phase() is Active,
    ensures
        render_result_step(a, Err(SurfaceError::OutOfMemory)).1 == Action::Exit,
        render_result_step(a, Err(SurfaceError::OutOfMemory)).0.phase() is Exiting,
        redraw_action(render_result_step(a, Err(SurfaceError::OutOfMemory)).0)
            == Action::Continue,
{
}

/// The terminal phase really is terminal: once exiting, every event leaves
/// the state unchanged, answers `Continue` or installs nothing, and in
/// particular no render and no surface reconfiguration is ever requested
/// again.
pub proof fn lemma_exiting_is_terminal(
    a: App,
    r: Renderer,
    width: u32,
    height: u32,
    dx: i64,
    dy: i64,
    code: u32,
    pressed: bool,
    result: Result<(), SurfaceError>,
)
    requires
        a.phase() is Exiting,
    ensures
        ready_action(a) == Action::Continue,
        renderer_ready_step(a, r) == a,
        close_step(a) == (a, Action::Continue),
        resized_step(a, width, height) == (a, Action::Continue),
        pointer_motion_step(a, dx, dy) == a,
        key_step(a, code, pressed) == (a, Action::Continue),
        redraw_action(a) == Action::Continue,
        render_result_step(a, result) == (a, Action::Continue),
{
}

/// One pointer-motion event in the active phase adds exactly its delta to
/// the camera accumulators and modifies nothing else, whenever the sums
/// stay representable.
pub proof fn lemma_pointer_motion_adds_exactly(a: App, dx: i64, dy: i64)
    requires
        a.phase() is Active,
        i64::MIN <= a.camera.dx + dx <= i64::MAX,
        i64::MIN <= a.camera.dy + dy <= i64::MAX,
    ensures
        pointer_motion_step(a, dx, dy).camera.dx == a.camera.dx + dx,
        pointer_motion_step(a, dx, dy).camera.dy == a.camera.dy + dy,
        pointer_motion_step(a, dx, dy).renderer == a.renderer,
        pointer_motion_step(a, dx, dy).exiting == a.exiting,
        pointer_motion_step(a, dx, dy).cancel_key == a.cancel_key,
        pointer_motion_step(a, dx, dy).last_render_time == a.last_render_time,
{
}

/// Two pointer-motion events within one frame are additive at the
/// application level: they leave the same state as one combined event,
/// whenever the combined sums are representable.
pub proof fn lemma_pointer_motion_additive(a: App, dx1: i64, dy1: i64, dx2: i64, dy2: i64)
    requires
        i64::MIN <= dx1 + dx2 <= i64::MAX,
        i64::MIN <= dy1 + dy2 <= i64::MAX,
    ensures
        pointer_motion_step(pointer_motion_step(a, dx1, dy1), dx2, dy2)
            == pointer_motion_step(a, (dx1 + dx2) as i64, (dy1 + dy2) as i64),
{
    lemma_motion_additive(a.camera, dx1, dy1, dx2, dy2);
}

/// Two pointer-motion events within one frame are order-independent at the
/// application level: delivered in either order, they leave the same state.
pub proof fn lemma_pointer_motion_order_independent(
    a: App,
    dx1: i64,
    dy1: i64,
    dx2: i64,
    dy2: i64,
)
    ensures
        pointer_motion_step(pointer_motion_step(a, dx1, dy1), dx2, dy2)
            == pointer_motion_step(pointer_motion_step(a, dx2, dy2), dx1, dy1),
{
    lemma_motion_order_independent(a.camera, dx1, dy1, dx2, dy2);
}

/// An ignorable transient render outcome (Timeout, or any unclassified
/// failure) never changes the application state and never triggers a
/// resize: whatever the phase, the state is left as it was and the host is
/// told only to continue.
pub proof fn lemma_ignorable_changes_nothing(a: App, e: SurfaceError)
    requires
        error_class(e) == ErrorClass::IgnorableTransient,
    ensures
        render_result_step(a, Err(e)) == (a, Action::Continue),
{
}

} // verus!
