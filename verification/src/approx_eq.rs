//! Approximate equality within a caller-chosen tolerance.
//!
//! The scalar rule: two values agree within `delta` iff `delta` is
//! non-negative and their difference is at most `delta` in magnitude. A
//! negative tolerance never accepts, not even equal values. Composite types
//! apply the scalar rule component-wise.

use vstd::prelude::*;

use crate::movement::OrbitTransform;
use crate::scalar::abs_val;
use crate::scalar::Scalar;
use crate::vector::Vec2;
use crate::vector::Vec3;

verus! {

/// Equality up to a tolerance, decided component-wise for composite types.
pub trait ApproxEq: Sized {
    /// What it means for `self` and `other` to agree within `delta`.
    spec fn approx_eq_spec(self, other: Self, delta: Self) -> bool;

    /// Decides `approx_eq_spec`.
    fn approx_eq(self, other: Self, delta: Self) -> (r: bool)
        ensures
            r == self.approx_eq_spec(other, delta),
    ;
}

impl ApproxEq for Scalar {
    open spec fn approx_eq_spec(self, other: Scalar, delta: Scalar) -> bool {
        delta@ >= 0 && abs_val(self@ - other@) <= delta@
    }

    fn approx_eq(self, other: Scalar, delta: Scalar) -> (r: bool) {
        if delta.micros < 0 {
            return false;
        }
        let difference: i128 = self.micros as i128 - other.micros as i128;
        let magnitude: i128 = if difference < 0 {
            -difference
        } else {
            difference
        };
        magnitude <= delta.micros as i128
    }
}

impl ApproxEq for Vec2 {
    open spec fn approx_eq_spec(self, other: Vec2, delta: Vec2) -> bool {
        &&& self.x.approx_eq_spec(other.x, delta.x)
        &&& self.y.approx_eq_spec(other.y, delta.y)
    }

    fn approx_eq(self, other: Vec2, delta: Vec2) -> (r: bool) {
        self.x.approx_eq(other.x, delta.x) && self.y.approx_eq(other.y, delta.y)
    }
}

impl ApproxEq for Vec3 {
    open spec fn approx_eq_spec(self, other: Vec3, delta: Vec3) -> bool {
        &&& self.x.approx_eq_spec(other.x, delta.x)
        &&& self.y.approx_eq_spec(other.y, delta.y)
        &&& self.z.approx_eq_spec(other.z, delta.z)
    }

    fn approx_eq(self, other: Vec3, delta: Vec3) -> (r: bool) {
        self.x.approx_eq(other.x, delta.x) && self.y.approx_eq(other.y, delta.y)
            && self.z.approx_eq(other.z, delta.z)
    }
}

impl ApproxEq for OrbitTransform {
    open spec fn approx_eq_spec(self, other: OrbitTransform, delta: OrbitTransform) -> bool {
        &&& self.yaw.approx_eq_spec(other.yaw, delta.yaw)
        &&& self.pitch.approx_eq_spec(other.pitch, delta.pitch)
        &&& self.distance.approx_eq_spec(other.distance, delta.distance)
    }

    fn approx_eq(self, other: OrbitTransform, delta: OrbitTransform) -> (r: bool) {
        self.yaw.approx_eq(other.yaw, delta.yaw) && self.pitch.approx_eq(other.pitch, delta.pitch)
            && self.distance.approx_eq(other.distance, delta.distance)
    }
}

/// A non-negative tolerance accepts a value against itself; a negative
/// tolerance rejects every pair, equal values included.
pub proof fn lemma_approx_eq_reflexive(a: Scalar, tolerance: Scalar)
    ensures
        tolerance@ >= 0 ==> a.approx_eq_spec(a, tolerance),
        tolerance@ < 0 ==> !a.approx_eq_spec(a, tolerance),
{
}

/// The component-wise lift of the reflexivity rule to vectors.
pub proof fn lemma_approx_eq_reflexive_vec3(a: Vec3, tolerance: Vec3)
    ensures
        (tolerance.x@ >= 0 && tolerance.y@ >= 0 && tolerance.z@ >= 0) ==> a.approx_eq_spec(
            a,
            tolerance,
        ),
        (tolerance.x@ < 0 || tolerance.y@ < 0 || tolerance.z@ < 0) ==> !a.approx_eq_spec(
            a,
            tolerance,
        ),
{
}

/// The component-wise lift of the reflexivity rule to whole transforms.
pub proof fn lemma_approx_eq_reflexive_transform(a: OrbitTransform, tolerance: OrbitTransform)
    ensures
        (tolerance.yaw@ >= 0 && tolerance.pitch@ >= 0 && tolerance.distance@ >= 0) ==> a.approx_eq_spec(
            a,
            tolerance,
        ),
        (tolerance.yaw@ < 0 || tolerance.pitch@ < 0 || tolerance.distance@ < 0) ==> !a.approx_eq_spec(
            a,
            tolerance,
        ),
{
}

} // verus!
