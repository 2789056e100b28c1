use cgmath::{vec3, Angle, Deg, InnerSpace, Matrix4, Point3, Rad, Vector3};
use render_core::camera::{FPSCamera, FULL_TURN, PITCH_LIMIT, SENSITIVITY, UNITS_PER_DEGREE};

fn degrees(units: i64) -> Deg<f64> {
    Deg(units as f64 / UNITS_PER_DEGREE as f64)
}

fn front_of(camera: &FPSCamera) -> Vector3<f64> {
    let yaw: Rad<f64> = degrees(camera.yaw()).into();
    let pitch: Rad<f64> = degrees(camera.pitch()).into();
    vec3(yaw.cos() * pitch.cos(), -pitch.sin(), yaw.sin() * pitch.cos()).normalize()
}

fn up_of(camera: &FPSCamera) -> Vector3<f64> {
    let front = front_of(camera);
    let right = front.cross(vec3(0.0, 1.0, 0.0)).normalize();
    right.cross(front).normalize()
}

#[test]
fn the_constants_are_in_millionths_of_a_degree() {
    assert_eq!(UNITS_PER_DEGREE, 1_000_000);
    assert_eq!(FULL_TURN, 360 * UNITS_PER_DEGREE);
    assert_eq!(PITCH_LIMIT, 89 * UNITS_PER_DEGREE);
    assert_eq!(SENSITIVITY, 114_592);
    let step: Rad<f64> = degrees(SENSITIVITY).into();
    assert!((step.0 - 0.002).abs() < 1e-8);
}

#[test]
fn a_new_camera_looks_level() {
    let camera = FPSCamera::new();
    assert_eq!(camera.yaw(), 0);
    assert_eq!(camera.pitch(), 0);
}

#[test]
fn no_motion_changes_nothing() {
    let mut camera = FPSCamera::new();
    camera.handle_mouse_motion(0, 0);
    assert_eq!(camera.yaw(), 0);
    assert_eq!(camera.pitch(), 0);

    camera.handle_mouse_motion(25, -40);
    let (yaw, pitch) = (camera.yaw(), camera.pitch());
    camera.handle_mouse_motion(0, 0);
    assert_eq!(camera.yaw(), yaw);
    assert_eq!(camera.pitch(), pitch);
}

#[test]
fn each_count_is_worth_the_sensitivity() {
    let mut camera = FPSCamera::new();
    camera.handle_mouse_motion(10, -5);
    assert_eq!(camera.yaw(), 1_145_920);
    assert_eq!(camera.pitch(), -572_960);
    camera.handle_mouse_motion(1, 1);
    assert_eq!(camera.yaw(), 1_260_512);
    assert_eq!(camera.pitch(), -458_368);
}

#[test]
fn yaw_goes_round_the_turn() {
    let mut camera = FPSCamera::new();
    camera.handle_mouse_motion(-1, 0);
    assert_eq!(camera.yaw(), 359_885_408);
    camera.handle_mouse_motion(1, 0);
    assert_eq!(camera.yaw(), 0);
    camera.handle_mouse_motion(3141, 0);
    assert_eq!(camera.yaw(), 359_933_472);
    camera.handle_mouse_motion(1, 0);
    assert_eq!(camera.yaw(), 48_064);
}

#[test]
fn the_largest_motions_are_taken() {
    let mut camera = FPSCamera::new();
    camera.handle_mouse_motion(i32::MAX, i32::MAX);
    assert_eq!(camera.yaw(), 326_077_024);
    assert_eq!(camera.pitch(), 89_000_000);

    let mut camera = FPSCamera::new();
    camera.handle_mouse_motion(i32::MIN, i32::MIN);
    assert_eq!(camera.yaw(), 33_808_384);
    assert_eq!(camera.pitch(), -89_000_000);
}

#[test]
fn pitch_stops_at_the_upper_limit() {
    let mut camera = FPSCamera::new();
    camera.handle_mouse_motion(0, 776);
    assert_eq!(camera.pitch(), 88_923_392);
    camera.handle_mouse_motion(0, 1);
    assert_eq!(camera.pitch(), 89_000_000);
    camera.handle_mouse_motion(0, 1);
    assert_eq!(camera.pitch(), 89_000_000);
    camera.handle_mouse_motion(0, 0);
    assert_eq!(camera.pitch(), 89_000_000);
}

#[test]
fn pitch_stops_at_the_lower_limit() {
    let mut camera = FPSCamera::new();
    camera.handle_mouse_motion(0, -776);
    assert_eq!(camera.pitch(), -88_923_392);
    camera.handle_mouse_motion(0, -1);
    assert_eq!(camera.pitch(), -89_000_000);
    camera.handle_mouse_motion(0, -1_000_000);
    assert_eq!(camera.pitch(), -89_000_000);
}

#[test]
fn large_motions_down_hold_the_upper_limit() {
    let mut camera = FPSCamera::new();
    camera.handle_mouse_motion(0, -500);
    for _ in 0..100 {
        camera.handle_mouse_motion(0, 100_000);
        assert_eq!(camera.pitch(), PITCH_LIMIT);
        assert_eq!(camera.yaw(), 0);
    }
}

#[test]
fn large_motions_up_hold_the_lower_limit() {
    let mut camera = FPSCamera::new();
    camera.handle_mouse_motion(0, 1554);
    assert_eq!(camera.pitch(), PITCH_LIMIT);
    for _ in 0..100 {
        camera.handle_mouse_motion(0, -1554);
        assert_eq!(camera.pitch(), -PITCH_LIMIT);
    }
}

#[test]
fn small_motions_add_up_to_the_limit() {
    let mut camera = FPSCamera::new();
    for count in 1..=800i64 {
        camera.handle_mouse_motion(0, 1);
        assert_eq!(camera.pitch(), (count * SENSITIVITY).min(PITCH_LIMIT));
    }
    assert_eq!(camera.pitch(), 89_000_000);

    let mut camera = FPSCamera::new();
    for count in 1..=800i64 {
        camera.handle_mouse_motion(0, -3);
        assert_eq!(camera.pitch(), (-3 * count * SENSITIVITY).max(-PITCH_LIMIT));
    }
    assert_eq!(camera.pitch(), -89_000_000);
}

#[test]
fn pitch_leaves_the_limit_again() {
    let mut camera = FPSCamera::new();
    camera.handle_mouse_motion(0, 5000);
    assert_eq!(camera.pitch(), 89_000_000);
    camera.handle_mouse_motion(0, -1);
    assert_eq!(camera.pitch(), 88_885_408);
}

#[test]
fn angles_stay_in_range_over_many_motions() {
    let mut camera = FPSCamera::new();
    let mut seed: i64 = 12345;
    for _ in 0..2000 {
        seed = (seed * 1_103_515_245 + 12_345) % 2_147_483_648;
        let xrel = (seed % 4001 - 2000) as i32;
        seed = (seed * 1_103_515_245 + 12_345) % 2_147_483_648;
        let yrel = (seed % 4001 - 2000) as i32;
        camera.handle_mouse_motion(xrel, yrel);
        assert!(0 <= camera.yaw() && camera.yaw() < FULL_TURN);
        assert!(-PITCH_LIMIT <= camera.pitch() && camera.pitch() <= PITCH_LIMIT);
    }
}

#[test]
fn the_vectors_derived_from_the_angles_are_orthonormal() {
    let mut camera = FPSCamera::new();
    for (xrel, yrel) in [(0, 0), (120, -45), (-900, 300), (7, 100_000), (-3, -200_000), (5000, 777)] {
        camera.handle_mouse_motion(xrel, yrel);
        let front = front_of(&camera);
        let up = up_of(&camera);
        assert!((front.magnitude() - 1.0).abs() < 1e-5);
        assert!((up.magnitude() - 1.0).abs() < 1e-5);
        assert!(front.dot(up).abs() < 1e-5);
    }
}

#[test]
fn the_view_of_an_unmoved_camera_is_the_same_each_time() {
    let mut camera = FPSCamera::new();
    camera.handle_mouse_motion(321, -123);
    let eye = Point3::new(0.0, 0.0, -3.0);
    let first = Matrix4::look_at_rh(eye, eye + front_of(&camera), up_of(&camera));
    let second = Matrix4::look_at_rh(eye, eye + front_of(&camera), up_of(&camera));
    assert_eq!(first, second);
}

#[test]
fn a_level_camera_at_the_origin_looks_along_the_first_axis() {
    let mut camera = FPSCamera::new();
    camera.handle_mouse_motion(0, 0);
    let front = front_of(&camera);
    let up = up_of(&camera);
    assert!((front - vec3(1.0, 0.0, 0.0)).magnitude() < 1e-12);
    assert!((up - vec3(0.0, 1.0, 0.0)).magnitude() < 1e-12);
    let eye = Point3::new(0.0, 0.0, 0.0);
    let view = Matrix4::look_at_rh(eye, eye + front, up);
    let expected = Matrix4::look_at_rh(eye, Point3::new(1.0, 0.0, 0.0), vec3(0.0, 1.0, 0.0));
    for column in 0..4 {
        for row in 0..4 {
            assert!((view[column][row] - expected[column][row]).abs() < 1e-12);
        }
    }
}
