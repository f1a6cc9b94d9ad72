//! Orbit rotation driven by pointer motion.
//!
//! A motion event turns the agent around the anchor: yaw by
//! `-delta.x * sensitivity * elapsed` about the world up axis, pitch by
//! `-delta.y * sensitivity * elapsed` about the agent's local right axis.
//! The distance to the anchor is untouched, exactly.

use vstd::prelude::*;

use crate::movement::Anchor;
use crate::movement::AnchoredMovement;
use crate::movement::OrbitTransform;
use crate::movement::Seconds;
use crate::resources::CameraRotationSettings;
use crate::scalar::fixed_mul;
use crate::scalar::scalar;
use crate::vector::Vec2;

verus! {

/// A pointer-motion event: how far the pointer moved this frame.
#[derive(Clone, Copy, Debug, PartialEq, Eq, Structural)]
pub struct MouseMotion {
    pub delta: Vec2,
}

/// The yaw (for `axis = delta.x`) or pitch (for `axis = delta.y`) step one
/// motion event asks for: the input delta scaled by sensitivity and by the
/// elapsed seconds.
pub open spec fn rotation_step(axis: int, sensitivity: int, delta: Seconds) -> int {
    fixed_mul(fixed_mul(axis, sensitivity), delta.0@)
}

impl AnchoredMovement for MouseMotion {
    type TExtra = CameraRotationSettings;

    open spec fn movement_pre(
        &self,
        agent: OrbitTransform,
        around: Anchor,
        delta: Seconds,
        extra: CameraRotationSettings,
    ) -> bool {
        let yaw_step = rotation_step(self.delta.x@, extra.sensitivity@, delta);
        let pitch_step = rotation_step(self.delta.y@, extra.sensitivity@, delta);
        &&& i64::MIN <= fixed_mul(self.delta.x@, extra.sensitivity@) <= i64::MAX
        &&& i64::MIN <= fixed_mul(self.delta.y@, extra.sensitivity@) <= i64::MAX
        &&& i64::MIN <= yaw_step <= i64::MAX
        &&& i64::MIN <= pitch_step <= i64::MAX
        &&& i64::MIN <= agent.yaw@ - yaw_step <= i64::MAX
        &&& i64::MIN <= agent.pitch@ - pitch_step <= i64::MAX
    }

    open spec fn movement_spec(
        &self,
        agent: OrbitTransform,
        around: Anchor,
        delta: Seconds,
        extra: CameraRotationSettings,
    ) -> OrbitTransform {
        OrbitTransform {
            yaw: scalar(agent.yaw@ - rotation_step(self.delta.x@, extra.sensitivity@, delta)),
            pitch: scalar(agent.pitch@ - rotation_step(self.delta.y@, extra.sensitivity@, delta)),
            distance: agent.distance,
        }
    }

    fn anchored_movement(
        &self,
        agent: &mut OrbitTransform,
        around: Anchor,
        delta: Seconds,
        extra: CameraRotationSettings,
    ) {
        let yaw_step = self.delta.x.mul(extra.sensitivity).mul(delta.0);
        let pitch_step = self.delta.y.mul(extra.sensitivity).mul(delta.0);
        agent.yaw = agent.yaw.sub(yaw_step);
        agent.pitch = agent.pitch.sub(pitch_step);
    }
}

/// Orbit rotation preserves the agent's distance to the anchor, exactly: for
/// every input delta, elapsed time and sensitivity.
pub proof fn lemma_orbit_preserves_distance(
    event: MouseMotion,
    agent: OrbitTransform,
    around: Anchor,
    delta: Seconds,
    settings: CameraRotationSettings,
)
    ensures
        event.movement_spec(agent, around, delta, settings).distance == agent.distance,
{
}

} // verus!
