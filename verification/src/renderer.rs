//! Presentation-surface lifecycle for one window.
//!
//! The renderer tracks the last-known drawable size (physical pixels) of the
//! surface it is bound to and decides when the surface must be reconfigured.
//! The GPU work itself — configuring the surface, acquiring a frame,
//! submitting and presenting — is carried out by the host against the
//! [`SurfaceConfig`] requests issued here, and its outcome is reported back
//! as a [`SurfaceError`] classification.

use std::time::Duration;
use vstd::prelude::*;
use crate::camera::CameraController;

verus! {

/// A request to (re)configure the presentation surface for a drawable size.
/// Configuring a surface for a zero dimension is undefined, so a request is
/// only ever issued with both dimensions non-zero.
#[derive(Clone, Copy, Debug, PartialEq, Eq, Structural)]
pub struct SurfaceConfig {
    pub width: u32,
    pub height: u32,
}

/// The five-way classification of a failed render call, closed so the
/// recovery policy can be matched exhaustively.
#[derive(Clone, Copy, Debug, PartialEq, Eq, Structural)]
pub enum SurfaceError {
    /// The surface was lost and must be reconfigured; expected and cheap to
    /// recover from (for example after OS-level surface invalidation).
    Lost,
    /// The surface no longer matches the window and must be reconfigured.
    Outdated,
    /// Resource exhaustion the process cannot safely continue past.
    OutOfMemory,
    /// The surface API timed out handing out a frame; skip the frame.
    Timeout,
    /// Any unclassified failure; recorded and otherwise ignored.
    Other,
}

/// How the render-failure policy treats each [`SurfaceError`].
#[derive(Clone, Copy, Debug, PartialEq, Eq, Structural)]
pub enum ErrorClass {
    /// Reconfigure the surface with the stored size and continue.
    RecoverableSurfaceState,
    /// Terminate the application.
    FatalResourceExhaustion,
    /// Record and continue; no resize, no exit.
    IgnorableTransient,
}

/// The classification the recovery policy is driven by.
pub open spec fn error_class(e: SurfaceError) -> ErrorClass {
    match e {
        SurfaceError::Lost => ErrorClass::RecoverableSurfaceState,
        SurfaceError::Outdated => ErrorClass::RecoverableSurfaceState,
        SurfaceError::OutOfMemory => ErrorClass::FatalResourceExhaustion,
        SurfaceError::Timeout => ErrorClass::IgnorableTransient,
        SurfaceError::Other => ErrorClass::IgnorableTransient,
    }
}

/// Classifies a render failure per the recovery policy.
pub fn classify(e: SurfaceError) -> (class: ErrorClass)
    ensures
        class == error_class(e),
{
    match e {
        SurfaceError::Lost => ErrorClass::RecoverableSurfaceState,
        SurfaceError::Outdated => ErrorClass::RecoverableSurfaceState,
        SurfaceError::OutOfMemory => ErrorClass::FatalResourceExhaustion,
        SurfaceError::Timeout => ErrorClass::IgnorableTransient,
        SurfaceError::Other => ErrorClass::IgnorableTransient,
    }
}

/// The configuration request a resize to `(width, height)` issues: the exact
/// new size when both dimensions are non-zero, and none otherwise — a
/// minimized window commonly reports a zero dimension, and the surface then
/// keeps its previous configuration until a non-zero resize arrives.
pub open spec fn resize_request(width: u32, height: u32) -> Option<SurfaceConfig> {
    if width > 0 && height > 0 {
        Some(SurfaceConfig { width, height })
    } else {
        None
    }
}

/// Owns the drawable-size state of the presentation surface bound to one
/// window. The GPU device and queue handles live with the host beside this
/// state; they are exercised only through the requests issued here.
#[derive(Clone, Copy, Debug, PartialEq, Eq, Structural)]
pub struct Renderer {
    /// Last-known drawable width in physical pixels.
    pub width: u32,
    /// Last-known drawable height in physical pixels.
    pub height: u32,
}

impl Renderer {
    /// A renderer for a window whose drawable size is `(width, height)`.
    pub fn new(width: u32, height: u32) -> (r: Renderer)
        ensures
            r.width == width,
            r.height == height,
    {
        Renderer { width, height }
    }

    /// Records the new drawable size and decides whether the surface must be
    /// reconfigured: exactly when both dimensions are non-zero. Never fails;
    /// a zero dimension merely skips reconfiguration.
    pub fn resize(&mut self, width: u32, height: u32) -> (request: Option<SurfaceConfig>)
        ensures
            final(self).width == width,
            final(self).height == height,
            request == resize_request(width, height),
    {
        self.width = width;
        self.height = height;
        if width > 0 && height > 0 {
            Some(SurfaceConfig { width, height })
        } else {
            None
        }
    }

    /// The reconfiguration request for the stored size, used to recover from
    /// a lost or outdated surface: equivalent to a resize with the current
    /// stored dimensions.
    pub fn reconfigure_request(&self) -> (request: Option<SurfaceConfig>)
        ensures
            request == resize_request(self.width, self.height),
    {
        if self.width > 0 && self.height > 0 {
            Some(SurfaceConfig { width: self.width, height: self.height })
        } else {
            None
        }
    }

    /// Advances time-dependent render state by `dt` and consumes the pending
    /// camera delta, which from then on counts as applied to the view
    /// orientation. Deriving the actual view matrix from the returned delta
    /// is the concern of the GPU pipeline. Never fails.
    pub fn update(&mut self, _dt: Duration, camera: &mut CameraController) -> (delta: (i64, i64))
        ensures
            *final(self) == *old(self),
            delta.0 == old(camera).dx,
            delta.1 == old(camera).dy,
            final(camera).dx == 0,
            final(camera).dy == 0,
    {
        camera.consume()
    }
}

/// A resize with a zero dimension never requests surface reconfiguration.
pub proof fn lemma_zero_resize_skips_reconfiguration(width: u32, height: u32)
    requires
        width == 0 || height == 0,
    ensures
        resize_request(width, height) is None,
{
}

} // verus!
