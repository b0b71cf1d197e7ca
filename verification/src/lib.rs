//! Runtime core of an interactive real-time voxel renderer.
//!
//! The crate owns the pieces of the render loop that can be stated and
//! checked precisely: the application state machine that bridges window and
//! device events to render calls, the presentation-surface lifecycle with its
//! failure-recovery policy, the camera input accumulator, and the flat
//! voxel/chunk entity model. Platform work (window creation, GPU submission,
//! event delivery) stays outside; the state machine tells its host what to do
//! through explicit actions and is handed the outcomes back as events.

pub mod app;
pub mod camera;
mod clock;
pub mod ecs;
pub mod renderer;
