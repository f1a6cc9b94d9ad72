use orbit_camera::cam_movement::cam_movement;
use orbit_camera::holding_button::holding_button;
use orbit_camera::holding_button::ButtonInput;
use orbit_camera::mouse_wheel::MouseWheel;
use orbit_camera::movement::Anchor;
use orbit_camera::movement::OrbitTransform;
use orbit_camera::movement::Seconds;
use orbit_camera::resources::CameraZoomSettings;
use orbit_camera::scalar::Scalar;
use orbit_camera::set_material_time::set_material_time;
use orbit_camera::vector::Vec3;

const LEFT_BUTTON: u32 = 0;
const RIGHT_BUTTON: u32 = 1;

fn units(n: i64) -> Scalar {
    Scalar::from_int(n)
}

fn origin_anchor() -> Anchor {
    Anchor(Vec3::new(units(0), units(0), units(0)))
}

fn camera(distance: i64) -> OrbitTransform {
    OrbitTransform { yaw: units(0), pitch: units(0), distance: units(distance) }
}

fn scroll_out() -> MouseWheel {
    MouseWheel { x: units(0), y: units(-1) }
}

#[test]
fn holding_button_true() {
    let mut input = ButtonInput::new();
    input.press(LEFT_BUTTON);

    assert!(holding_button(&input, LEFT_BUTTON));
}

#[test]
fn holding_button_false() {
    let mut input = ButtonInput::new();
    input.press(RIGHT_BUTTON);

    assert!(!holding_button(&input, LEFT_BUTTON));
}

#[test]
fn set_elapsed_time() {
    let mut material_times = vec![units(0)];
    let materials: Vec<usize> = vec![0];

    set_material_time(&mut material_times, &materials, Seconds(units(6)));

    assert_eq!(units(6), material_times[0]);
}

#[test]
fn unreferenced_materials_keep_their_time() {
    let mut material_times = vec![units(1), units(2)];
    let materials: Vec<usize> = vec![1];

    set_material_time(&mut material_times, &materials, Seconds(units(6)));

    assert_eq!(units(1), material_times[0]);
    assert_eq!(units(6), material_times[1]);
}

#[test]
fn missing_materials_are_skipped() {
    let mut material_times = vec![units(1)];
    let materials: Vec<usize> = vec![5];

    set_material_time(&mut material_times, &materials, Seconds(units(6)));

    assert_eq!(units(1), material_times[0]);
}

#[test]
fn movement_applies_to_every_camera() {
    let mut cameras = vec![camera(1), camera(5)];
    let events = vec![scroll_out()];

    cam_movement(
        &mut cameras,
        &events,
        origin_anchor(),
        Seconds(units(1)),
        CameraZoomSettings { sensitivity: units(1), minimal_distance: units(0) },
    );

    assert_eq!(units(2), cameras[0].distance);
    assert_eq!(units(10), cameras[1].distance);
}

#[test]
fn movement_applies_events_in_order() {
    let mut cameras = vec![camera(1)];
    let events = vec![scroll_out(), scroll_out()];

    cam_movement(
        &mut cameras,
        &events,
        origin_anchor(),
        Seconds(units(1)),
        CameraZoomSettings { sensitivity: units(1), minimal_distance: units(0) },
    );

    assert_eq!(units(4), cameras[0].distance);
}

#[test]
fn no_events_no_movement() {
    let mut cameras = vec![camera(3)];
    let events: Vec<MouseWheel> = Vec::new();

    cam_movement(
        &mut cameras,
        &events,
        origin_anchor(),
        Seconds(units(1)),
        CameraZoomSettings::default(),
    );

    assert_eq!(camera(3), cameras[0]);
}
