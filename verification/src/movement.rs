//! The anchored-movement interface: events that move an agent around a fixed
//! anchor point, given the elapsed frame time and per-kind settings.

use vstd::prelude::*;

use crate::scalar::Scalar;
use crate::vector::Vec3;

verus! {

/// Elapsed time since the last frame, in seconds.
#[derive(Clone, Copy, Debug, PartialEq, Eq, Structural)]
pub struct Seconds(pub Scalar);

/// The world-space pivot point that camera movements orbit and zoom around.
#[derive(Clone, Copy, Debug, PartialEq, Eq, Structural)]
pub struct Anchor(pub Vec3);

/// An agent's pose relative to the anchor it orbits: a rotation about the
/// world up axis (`yaw`), a rotation about the agent's local right axis
/// (`pitch`), both in radians, and the distance to the anchor. The rendering
/// layer recovers the world position as `anchor - forward(yaw, pitch) *
/// distance`; the rules in this crate never need that trigonometry.
#[derive(Clone, Copy, Debug, PartialEq, Eq, Structural)]
pub struct OrbitTransform {
    pub yaw: Scalar,
    pub pitch: Scalar,
    pub distance: Scalar,
}

/// An input event that moves an agent around an anchor. Each implementation
/// pins its whole effect down in `movement_spec`; `movement_pre` collects the
/// machine-size bounds the update needs.
pub trait AnchoredMovement: Sized {
    /// The per-event-kind settings the movement reads.
    type TExtra: Copy;

    /// The machine-size bounds under which the movement is defined.
    spec fn movement_pre(
        &self,
        agent: OrbitTransform,
        around: Anchor,
        delta: Seconds,
        extra: Self::TExtra,
    ) -> bool;

    /// The agent's pose after this event.
    spec fn movement_spec(
        &self,
        agent: OrbitTransform,
        around: Anchor,
        delta: Seconds,
        extra: Self::TExtra,
    ) -> OrbitTransform;

    /// Applies this event to the agent.
    fn anchored_movement(
        &self,
        agent: &mut OrbitTransform,
        around: Anchor,
        delta: Seconds,
        extra: Self::TExtra,
    )
        requires
            self.movement_pre(*old(agent), around, delta, extra),
        ensures
            *final(agent) == self.movement_spec(*old(agent), around, delta, extra),
    ;
}

} // verus!
