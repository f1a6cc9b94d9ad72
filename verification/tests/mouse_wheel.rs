use orbit_camera::mouse_wheel::MouseWheel;
use orbit_camera::movement::Anchor;
use orbit_camera::movement::AnchoredMovement;
use orbit_camera::movement::OrbitTransform;
use orbit_camera::movement::Seconds;
use orbit_camera::resources::CameraZoomSettings;
use orbit_camera::scalar::Scalar;
use orbit_camera::vector::Vec3;

fn units(n: i64) -> Scalar {
    Scalar::from_int(n)
}

fn micros(n: i64) -> Scalar {
    Scalar::from_micros(n)
}

fn point(x: i64, y: i64, z: i64) -> Vec3 {
    Vec3::new(units(x), units(y), units(z))
}

enum Zoom {
    Zero,
    In(i64),
    Out(i64),
}

fn mouse_wheel(zoom: Zoom) -> MouseWheel {
    MouseWheel {
        x: units(0),
        y: match zoom {
            Zoom::Out(amount) => units(-amount),
            Zoom::Zero => units(0),
            Zoom::In(amount) => units(amount),
        },
    }
}

fn one_second() -> Seconds {
    Seconds(units(1))
}

#[test]
fn zoom_out_x_2_units() {
    let agent = point(1, 0, 0);
    let event = mouse_wheel(Zoom::Out(1));

    let moved = event.zoom_translation(
        agent,
        point(0, 0, 0),
        one_second(),
        CameraZoomSettings { sensitivity: units(2), ..Default::default() },
    );

    assert_eq!(point(3, 0, 0), moved);
}

#[test]
fn zoom_out_x_5_units() {
    let agent = point(1, 0, 0);
    let event = mouse_wheel(Zoom::Out(1));

    let moved = event.zoom_translation(
        agent,
        point(0, 0, 0),
        one_second(),
        CameraZoomSettings { sensitivity: units(5), ..Default::default() },
    );

    assert_eq!(point(6, 0, 0), moved);
}

#[test]
fn zoom_out_y_2_units() {
    let agent = point(0, 1, 0);
    let event = mouse_wheel(Zoom::Out(1));

    let moved = event.zoom_translation(
        agent,
        point(0, 0, 0),
        one_second(),
        CameraZoomSettings { sensitivity: units(2), ..Default::default() },
    );

    assert_eq!(point(0, 3, 0), moved);
}

#[test]
fn zoom_out_y_5_units() {
    let agent = point(0, 1, 0);
    let event = mouse_wheel(Zoom::Out(1));

    let moved = event.zoom_translation(
        agent,
        point(0, 0, 0),
        one_second(),
        CameraZoomSettings { sensitivity: units(5), ..Default::default() },
    );

    assert_eq!(point(0, 6, 0), moved);
}

#[test]
fn zoom_out_x_units_with_anchor_offset() {
    let agent = point(6, 0, 0);
    let event = mouse_wheel(Zoom::Out(1));

    let moved = event.zoom_translation(
        agent,
        point(2, 0, 0),
        one_second(),
        CameraZoomSettings { sensitivity: units(1), ..Default::default() },
    );

    assert_eq!(point(10, 0, 0), moved);
}

#[test]
fn zoom_out_scaled_by_delta() {
    let agent = point(4, 0, 0);
    let event = mouse_wheel(Zoom::Out(1));

    let moved = event.zoom_translation(
        agent,
        point(0, 0, 0),
        Seconds(micros(500_000)),
        CameraZoomSettings { sensitivity: units(1), ..Default::default() },
    );

    assert_eq!(point(6, 0, 0), moved);
}

#[test]
fn zoom_out_scaled_by_current_distance() {
    let agent = point(5, 0, 0);
    let event = mouse_wheel(Zoom::Out(1));

    let moved = event.zoom_translation(
        agent,
        point(0, 0, 0),
        one_second(),
        CameraZoomSettings { sensitivity: units(1), ..Default::default() },
    );

    assert_eq!(point(10, 0, 0), moved);
}

#[test]
fn zoom_in_scaled_by_current_distance_and_delta() {
    let agent = point(10, 0, 0);
    let event = mouse_wheel(Zoom::In(1));

    let moved = event.zoom_translation(
        agent,
        point(0, 0, 0),
        one_second(),
        CameraZoomSettings { sensitivity: micros(100_000), ..Default::default() },
    );

    assert_eq!(point(9, 0, 0), moved);
}

#[test]
fn zoom_in_is_limited() {
    let agent = point(10, 0, 0);
    let event = mouse_wheel(Zoom::In(1));

    let moved = event.zoom_translation(
        agent,
        point(0, 0, 0),
        one_second(),
        CameraZoomSettings { sensitivity: units(1), minimal_distance: units(4) },
    );

    assert_eq!(point(4, 0, 0), moved);
}

#[test]
fn zoom_out_independent_from_zoom_amount() {
    let agent = point(5, 0, 0);
    let event = mouse_wheel(Zoom::Out(2));

    let moved = event.zoom_translation(
        agent,
        point(0, 0, 0),
        one_second(),
        CameraZoomSettings { sensitivity: units(1), ..Default::default() },
    );

    assert_eq!(point(10, 0, 0), moved);
}

#[test]
fn zoom_in_independent_from_zoom_amount() {
    let agent = point(10, 0, 0);
    let event = mouse_wheel(Zoom::In(2));

    let moved = event.zoom_translation(
        agent,
        point(0, 0, 0),
        Seconds(micros(100_000)),
        CameraZoomSettings { sensitivity: units(1), ..Default::default() },
    );

    assert_eq!(point(9, 0, 0), moved);
}

#[test]
fn no_zoom() {
    let agent = point(1, 0, 0);
    let event = mouse_wheel(Zoom::Zero);

    let moved = event.zoom_translation(
        agent,
        point(0, 0, 0),
        one_second(),
        CameraZoomSettings { sensitivity: units(1), ..Default::default() },
    );

    assert_eq!(point(1, 0, 0), moved);
}

#[test]
fn zoom_out_with_default_settings_reaches_eleven() {
    // Scroll-out of one unit, sensitivity 10, one second, from distance 1:
    // the distance grows to 1 + 1 * 10 * 1 = 11.
    let agent = point(1, 0, 0);
    let event = mouse_wheel(Zoom::Out(1));

    let moved = event.zoom_translation(
        agent,
        point(0, 0, 0),
        one_second(),
        CameraZoomSettings::default(),
    );

    assert_eq!(point(11, 0, 0), moved);
}

#[test]
fn zoom_acts_on_transform_distance() {
    let mut agent = OrbitTransform { yaw: units(0), pitch: units(0), distance: units(1) };
    let event = mouse_wheel(Zoom::Out(1));

    event.anchored_movement(
        &mut agent,
        Anchor(point(0, 0, 0)),
        one_second(),
        CameraZoomSettings::default(),
    );

    assert_eq!(units(11), agent.distance);
    assert_eq!(units(0), agent.yaw);
    assert_eq!(units(0), agent.pitch);
}

#[test]
fn zoom_on_transform_respects_floor() {
    let mut agent = OrbitTransform { yaw: units(0), pitch: units(0), distance: units(10) };
    let event = mouse_wheel(Zoom::In(1));

    event.anchored_movement(
        &mut agent,
        Anchor(point(0, 0, 0)),
        one_second(),
        CameraZoomSettings { sensitivity: units(1), minimal_distance: units(4) },
    );

    assert_eq!(units(4), agent.distance);
}

#[test]
fn no_zoom_on_transform_is_noop() {
    let mut agent = OrbitTransform { yaw: units(2), pitch: units(1), distance: units(7) };
    let event = mouse_wheel(Zoom::Zero);

    event.anchored_movement(
        &mut agent,
        Anchor(point(0, 0, 0)),
        one_second(),
        CameraZoomSettings::default(),
    );

    assert_eq!(OrbitTransform { yaw: units(2), pitch: units(1), distance: units(7) }, agent);
}
