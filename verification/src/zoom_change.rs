//! Turning a raw scroll event into a signed zoom change.

use vstd::prelude::*;

use crate::mouse_wheel::MouseWheel;
use crate::scalar::fixed_mul;
use crate::scalar::scalar;
use crate::scalar::Scalar;
use crate::scalar::MICROS_PER_UNIT;

verus! {

/// A signed change of the camera's distance to the anchor, one unit per
/// scroll step: positive moves the camera away, negative moves it closer.
#[derive(Clone, Copy, Debug, PartialEq, Eq, Structural)]
pub struct ZoomChange(pub Scalar);

/// The scroll event asked for no change at all.
#[derive(Clone, Copy, Debug, PartialEq, Eq, Structural)]
pub struct NoChange;

enum Direction {
    Unchanged,
    AwayFromCam,
    TowardsCam,
}

impl ZoomChange {
    /// This change, scaled by the given factor.
    pub fn scaled_by(self, scale: Scalar) -> (r: ZoomChange)
        requires
            i64::MIN <= fixed_mul(self.0@, scale@) <= i64::MAX,
        ensures
            r.0@ == fixed_mul(self.0@, scale@),
    {
        let ZoomChange(change) = self;
        ZoomChange(change.mul(scale))
    }

    /// The underlying signed change.
    pub fn value(self) -> (r: Scalar)
        ensures
            r == self.0,
    {
        let ZoomChange(change) = self;
        change
    }

    fn direction(mouse_wheel: &MouseWheel) -> (r: Direction)
        ensures
            mouse_wheel.y@ > 0 ==> r is AwayFromCam,
            mouse_wheel.y@ < 0 ==> r is TowardsCam,
            mouse_wheel.y@ == 0 ==> r is Unchanged,
    {
        if mouse_wheel.y.micros > 0 {
            Direction::AwayFromCam
        } else if mouse_wheel.y.micros < 0 {
            Direction::TowardsCam
        } else {
            Direction::Unchanged
        }
    }

    /// The change a scroll event asks for: one unit towards the camera for an
    /// upward scroll, one unit away for a downward scroll, and `NoChange` for
    /// a zero scroll.
    pub fn try_from(mouse_wheel: &MouseWheel) -> (r: Result<ZoomChange, NoChange>)
        ensures
            mouse_wheel.y@ < 0 ==> r == Ok::<ZoomChange, NoChange>(
                ZoomChange(scalar(MICROS_PER_UNIT as int)),
            ),
            mouse_wheel.y@ > 0 ==> r == Ok::<ZoomChange, NoChange>(
                ZoomChange(scalar(-(MICROS_PER_UNIT as int))),
            ),
            mouse_wheel.y@ == 0 ==> r == Err::<ZoomChange, NoChange>(NoChange),
    {
        match ZoomChange::direction(mouse_wheel) {
            Direction::TowardsCam => Ok(ZoomChange(Scalar { micros: MICROS_PER_UNIT })),
            Direction::AwayFromCam => Ok(ZoomChange(Scalar { micros: -MICROS_PER_UNIT })),
            Direction::Unchanged => Err(NoChange),
        }
    }
}

} // verus!
