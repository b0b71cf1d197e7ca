//! First-person camera input accumulator.
//!
//! Raw pointer motion arrives from the device-level channel (unaffected by
//! OS pointer acceleration or clamping at screen edges) and is accumulated
//! here until the next update step consumes it as one orientation delta.

use vstd::prelude::*;
use vstd::wrapping::i64_specs;

verus! {

/// Pending view-orientation delta, in raw device units.
///
/// Accumulation is additive and order-independent within a frame; consuming
/// the delta zeroes both axes so that the next frame starts fresh.
pub struct CameraController {
    /// Pending horizontal motion.
    pub dx: i64,
    /// Pending vertical motion.
    pub dy: i64,
}

/// The controller state after one motion event of `(dx, dy)` is absorbed.
pub open spec fn after_motion(c: CameraController, dx: i64, dy: i64) -> CameraController {
    CameraController {
        dx: i64_specs::wrapping_add(c.dx, dx),
        dy: i64_specs::wrapping_add(c.dy, dy),
    }
}

impl CameraController {
    /// A controller with no pending motion.
    pub fn new() -> (c: CameraController)
        ensures
            c.dx == 0,
            c.dy == 0,
    {
        CameraController { dx: 0, dy: 0 }
    }

    /// Absorbs one raw pointer-motion event into the pending delta.
    pub fn process_motion(&mut self, dx: i64, dy: i64)
        ensures
            *final(self) == after_motion(*old(self), dx, dy),
    {
        self.dx = self.dx.wrapping_add(dx);
        self.dy = self.dy.wrapping_add(dy);
    }

    /// Hands out the accumulated delta and clears both accumulators, so that
    /// motion arriving afterwards counts towards the next consumption.
    pub fn consume(&mut self) -> (delta: (i64, i64))
        ensures
            delta.0 == old(self).dx,
            delta.1 == old(self).dy,
            final(self).dx == 0,
            final(self).dy == 0,
    {
        let delta = (self.dx, self.dy);
        self.dx = 0;
        self.dy = 0;
        delta
    }
}

/// Accumulation within one frame is additive: absorbing `(dx1, dy1)` and then
/// `(dx2, dy2)` leaves the controller exactly as one combined event
/// `(dx1 + dx2, dy1 + dy2)` would, whenever those sums are representable.
pub proof fn lemma_motion_additive(c: CameraController, dx1: i64, dy1: i64, dx2: i64, dy2: i64)
    requires
        i64::MIN <= dx1 + dx2 <= i64::MAX,
        i64::MIN <= dy1 + dy2 <= i64::MAX,
    ensures
        after_motion(after_motion(c, dx1, dy1), dx2, dy2) == after_motion(
            c,
            (dx1 + dx2) as i64,
            (dy1 + dy2) as i64,
        ),
{
}

/// Accumulation within one frame is order-independent: two motion events
/// leave the controller in the same state in whichever order they arrive.
pub proof fn lemma_motion_order_independent(
    c: CameraController,
    dx1: i64,
    dy1: i64,
    dx2: i64,
    dy2: i64,
)
    ensures
        after_motion(after_motion(c, dx1, dy1), dx2, dy2) == after_motion(
            after_motion(c, dx2, dy2),
            dx1,
            dy1,
        ),
{
}

} // verus!
