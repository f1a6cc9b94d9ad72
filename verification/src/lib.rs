//! Anchored camera movement and material bookkeeping for a scene with a
//! single orbit/zoom pivot point.
//!
//! All quantities are exact fixed-point scalars (signed counts of millionths
//! of a unit), so every geometric rule here is stated and proved exactly.

pub mod approx_eq;
pub mod cam_movement;
pub mod holding_button;
pub mod mouse_motion;
pub mod mouse_wheel;
pub mod movement;
pub mod replace_standard_material;
pub mod resources;
pub mod scalar;
pub mod set_material_time;
pub mod sqrt;
pub mod vector;
pub mod zoom_change;
