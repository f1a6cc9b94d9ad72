//! Process-wide camera settings: small value records with defaults, set once
//! at startup and read-only afterwards.

use vstd::prelude::*;

use crate::scalar::Scalar;

verus! {

/// Settings for scroll-driven zoom: how fast the distance changes, and the
/// hard floor it never goes below.
#[derive(Clone, Copy, Debug, PartialEq, Eq, Structural)]
pub struct CameraZoomSettings {
    pub sensitivity: Scalar,
    pub minimal_distance: Scalar,
}

impl Default for CameraZoomSettings {
    /// Sensitivity 10, minimal distance 3 units.
    fn default() -> (r: CameraZoomSettings)
        ensures
            r.sensitivity@ == 10_000_000,
            r.minimal_distance@ == 3_000_000,
    {
        CameraZoomSettings {
            sensitivity: Scalar { micros: 10_000_000 },
            minimal_distance: Scalar { micros: 3_000_000 },
        }
    }
}

/// Settings for pointer-driven orbit rotation.
#[derive(Clone, Copy, Debug, PartialEq, Eq, Structural)]
pub struct CameraRotationSettings {
    pub sensitivity: Scalar,
}

impl Default for CameraRotationSettings {
    /// Sensitivity one half.
    fn default() -> (r: CameraRotationSettings)
        ensures
            r.sensitivity@ == 500_000,
    {
        CameraRotationSettings { sensitivity: Scalar { micros: 500_000 } }
    }
}

} // verus!
