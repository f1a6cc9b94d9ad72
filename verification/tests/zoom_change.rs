use orbit_camera::mouse_wheel::MouseWheel;
use orbit_camera::scalar::Scalar;
use orbit_camera::zoom_change::NoChange;
use orbit_camera::zoom_change::ZoomChange;

fn units(n: i64) -> Scalar {
    Scalar::from_int(n)
}

fn micros(n: i64) -> Scalar {
    Scalar::from_micros(n)
}

fn wheel(y: Scalar) -> MouseWheel {
    MouseWheel { x: units(0), y }
}

#[test]
fn scroll_down_moves_towards_the_camera() {
    let change = ZoomChange::try_from(&wheel(units(-2))).unwrap();

    assert_eq!(units(1), change.value());
}

#[test]
fn scroll_up_moves_away_from_the_camera() {
    let change = ZoomChange::try_from(&wheel(units(3))).unwrap();

    assert_eq!(units(-1), change.value());
}

#[test]
fn zero_scroll_is_no_change() {
    assert!(matches!(ZoomChange::try_from(&wheel(units(0))), Err(NoChange)));
}

#[test]
fn change_scales_by_a_factor() {
    let change = ZoomChange::try_from(&wheel(units(-1))).unwrap();

    let scaled = change.scaled_by(micros(2_500_000));

    assert_eq!(micros(2_500_000), scaled.value());
}
