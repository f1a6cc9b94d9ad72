use orbit_camera::mouse_motion::MouseMotion;
use orbit_camera::movement::Anchor;
use orbit_camera::movement::AnchoredMovement;
use orbit_camera::movement::OrbitTransform;
use orbit_camera::movement::Seconds;
use orbit_camera::resources::CameraRotationSettings;
use orbit_camera::scalar::Scalar;
use orbit_camera::vector::Vec2;
use orbit_camera::vector::Vec3;

// Angles are radians in micro-units; 90 degrees is pi/2.
const RADIANS_90_DEGREES: i64 = 1_570_796;
const RADIANS_45_DEGREES: i64 = 785_398;

fn units(n: i64) -> Scalar {
    Scalar::from_int(n)
}

fn micros(n: i64) -> Scalar {
    Scalar::from_micros(n)
}

fn origin_anchor() -> Anchor {
    Anchor(Vec3::new(units(0), units(0), units(0)))
}

fn offset_anchor() -> Anchor {
    Anchor(Vec3::new(units(0), units(1), units(0)))
}

fn agent_at_distance_one() -> OrbitTransform {
    OrbitTransform { yaw: units(0), pitch: units(0), distance: units(1) }
}

fn motion(x: i64, y: i64) -> MouseMotion {
    MouseMotion { delta: Vec2::new(micros(x), micros(y)) }
}

fn full_sensitivity() -> CameraRotationSettings {
    CameraRotationSettings { sensitivity: units(1) }
}

#[test]
fn rotate_x_left_90_degrees() {
    let mut agent = agent_at_distance_one();
    let event = motion(RADIANS_90_DEGREES, 0);

    event.anchored_movement(&mut agent, origin_anchor(), Seconds(units(1)), full_sensitivity());

    assert_eq!(
        OrbitTransform { yaw: micros(-RADIANS_90_DEGREES), pitch: units(0), distance: units(1) },
        agent
    );
}

#[test]
fn rotate_x_left_45_degrees() {
    let mut agent = agent_at_distance_one();
    let event = motion(RADIANS_45_DEGREES, 0);

    event.anchored_movement(&mut agent, origin_anchor(), Seconds(units(1)), full_sensitivity());

    assert_eq!(
        OrbitTransform { yaw: micros(-RADIANS_45_DEGREES), pitch: units(0), distance: units(1) },
        agent
    );
}

#[test]
fn rotate_x_left_45_degrees_scaled_by_sensitivity() {
    let mut agent = agent_at_distance_one();
    let event = motion(RADIANS_90_DEGREES, 0);

    event.anchored_movement(
        &mut agent,
        origin_anchor(),
        Seconds(units(1)),
        CameraRotationSettings { sensitivity: micros(500_000) },
    );

    assert_eq!(
        OrbitTransform { yaw: micros(-RADIANS_45_DEGREES), pitch: units(0), distance: units(1) },
        agent
    );
}

#[test]
fn rotate_x_left_90_degrees_with_offset_anchor() {
    let mut agent = agent_at_distance_one();
    let event = motion(RADIANS_90_DEGREES, 0);

    event.anchored_movement(&mut agent, offset_anchor(), Seconds(units(1)), full_sensitivity());

    assert_eq!(
        OrbitTransform { yaw: micros(-RADIANS_90_DEGREES), pitch: units(0), distance: units(1) },
        agent
    );
}

#[test]
fn rotate_x_left_45_degrees_scaled_by_delta() {
    let mut agent = agent_at_distance_one();
    let event = motion(RADIANS_90_DEGREES, 0);

    event.anchored_movement(
        &mut agent,
        offset_anchor(),
        Seconds(micros(500_000)),
        full_sensitivity(),
    );

    assert_eq!(
        OrbitTransform { yaw: micros(-RADIANS_45_DEGREES), pitch: units(0), distance: units(1) },
        agent
    );
}

#[test]
fn rotate_y_up_45_degrees() {
    let mut agent = agent_at_distance_one();
    let event = motion(0, RADIANS_45_DEGREES);

    event.anchored_movement(&mut agent, origin_anchor(), Seconds(units(1)), full_sensitivity());

    assert_eq!(
        OrbitTransform { yaw: units(0), pitch: micros(-RADIANS_45_DEGREES), distance: units(1) },
        agent
    );
}

#[test]
fn rotate_y_up_45_degrees_scaled_by_delta() {
    let mut agent = agent_at_distance_one();
    let event = motion(0, RADIANS_90_DEGREES);

    event.anchored_movement(
        &mut agent,
        origin_anchor(),
        Seconds(micros(500_000)),
        full_sensitivity(),
    );

    assert_eq!(
        OrbitTransform { yaw: units(0), pitch: micros(-RADIANS_45_DEGREES), distance: units(1) },
        agent
    );
}

#[test]
fn rotate_y_up_45_degrees_scaled_by_sensitivity() {
    let mut agent = agent_at_distance_one();
    let event = motion(0, RADIANS_90_DEGREES);

    event.anchored_movement(
        &mut agent,
        origin_anchor(),
        Seconds(units(1)),
        CameraRotationSettings { sensitivity: micros(500_000) },
    );

    assert_eq!(
        OrbitTransform { yaw: units(0), pitch: micros(-RADIANS_45_DEGREES), distance: units(1) },
        agent
    );
}

#[test]
fn rotation_preserves_distance_for_any_delta() {
    let mut agent = OrbitTransform { yaw: units(3), pitch: units(-2), distance: units(42) };
    let event = motion(123_456, -654_321);

    event.anchored_movement(&mut agent, origin_anchor(), Seconds(micros(16_667)),
        CameraRotationSettings::default());

    assert_eq!(units(42), agent.distance);
}
