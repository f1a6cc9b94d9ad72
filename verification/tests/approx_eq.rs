use orbit_camera::approx_eq::ApproxEq;
use orbit_camera::movement::OrbitTransform;
use orbit_camera::scalar::Scalar;
use orbit_camera::vector::Vec3;

fn units(n: i64) -> Scalar {
    Scalar::from_int(n)
}

fn micros(n: i64) -> Scalar {
    Scalar::from_micros(n)
}

#[test]
fn not_approx_equal() {
    assert!(!units(5).approx_eq(units(4), micros(900_000)));
}

#[test]
fn approx_equal_1() {
    assert!(units(5).approx_eq(units(4), units(1)));
}

#[test]
fn approx_equal_2() {
    assert!(units(5).approx_eq(units(4), micros(1_100_000)));
}

#[test]
fn not_approx_equal_reversed() {
    assert!(!units(4).approx_eq(units(5), micros(900_000)));
}

#[test]
fn approx_equal_1_reversed() {
    assert!(units(4).approx_eq(units(5), units(1)));
}

#[test]
fn approx_equal_2_reversed() {
    assert!(units(4).approx_eq(units(5), micros(1_100_000)));
}

#[test]
fn neg_delta_always_false() {
    assert!(!units(4).approx_eq(units(5), units(-1)));
}

#[test]
fn zero_delta_accepts_equal_values() {
    assert!(units(4).approx_eq(units(4), micros(0)));
}

#[test]
fn vectors_compare_component_wise() {
    let a = Vec3::new(units(1), units(2), units(3));
    let b = Vec3::new(units(1), micros(2_000_001), units(3));
    let tight = Vec3::new(micros(1), micros(1), micros(1));
    let zero = Vec3::new(micros(0), micros(0), micros(0));
    assert!(a.approx_eq(b, tight));
    assert!(!a.approx_eq(b, zero));
}

#[test]
fn transforms_compare_component_wise() {
    let a = OrbitTransform { yaw: units(1), pitch: units(0), distance: units(5) };
    let b = OrbitTransform { yaw: micros(999_999), pitch: units(0), distance: units(5) };
    let tight = OrbitTransform { yaw: micros(1), pitch: micros(1), distance: micros(1) };
    let negative = OrbitTransform { yaw: micros(1), pitch: units(-1), distance: micros(1) };
    assert!(a.approx_eq(b, tight));
    assert!(!a.approx_eq(b, negative));
}
