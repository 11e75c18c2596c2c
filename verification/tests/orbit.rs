use orbit_camera::camera::OrbitCameraState;
use orbit_camera::camera::Point3;
use orbit_camera::camera::PI_URAD;
use orbit_camera::camera::PITCH_LIMIT_URAD;
use orbit_camera::camera::RADIUS_MAX_MILLI;
use orbit_camera::camera::RADIUS_MIN_MILLI;
use orbit_camera::camera::TAU_URAD;
use orbit_camera::utils::systime;

fn origin() -> Point3 {
    Point3 { x: 0, y: 0, z: 0 }
}

#[test]
fn default_state_is_deterministic() {
    let s: OrbitCameraState = Default::default();
    assert_eq!(s.focus, origin());
    assert_eq!(s.radius, 10000);
    assert_eq!(s.yaw, 0);
    assert_eq!(s.pitch, 0);
    assert!(!s.upside_down);
}

#[test]
fn new_clamps_radius_into_bounds() {
    let tight: OrbitCameraState = OrbitCameraState::new(origin(), 0);
    assert_eq!(tight.radius, RADIUS_MIN_MILLI);
    let far: OrbitCameraState = OrbitCameraState::new(origin(), 2000000000);
    assert_eq!(far.radius, RADIUS_MAX_MILLI);
    let plain: OrbitCameraState = OrbitCameraState::new(origin(), 7500);
    assert_eq!(plain.radius, 7500);
    assert_eq!(plain.yaw, 0);
    assert_eq!(plain.pitch, 0);
    assert!(!plain.upside_down);
}

#[test]
fn zero_input_is_a_no_op() {
    let s: OrbitCameraState = OrbitCameraState::new(Point3 { x: 1, y: 2, z: 3 }, 4000);
    let n: OrbitCameraState = s.update(0, 0, 0, 1280, 720);
    assert_eq!(n, s);
}

#[test]
fn full_width_drag_is_half_a_turn() {
    let s: OrbitCameraState = Default::default();
    let n: OrbitCameraState = s.update(800, 0, 0, 800, 600);
    assert_eq!(n.yaw as i64, PI_URAD);
    assert_eq!(n.pitch, 0);
    assert_eq!(n.radius, 10000);
    assert_eq!(n.focus, origin());
}

#[test]
fn full_turn_returns_to_start() {
    let s: OrbitCameraState = Default::default();
    let half: OrbitCameraState = s.update(800, 0, 0, 800, 600);
    let whole: OrbitCameraState = half.update(800, 0, 0, 800, 600);
    assert_eq!(whole, s);
}

#[test]
fn drag_sensitivity_is_resolution_independent() {
    let s: OrbitCameraState = Default::default();
    let small: OrbitCameraState = s.update(160, 0, 0, 640, 360);
    let large: OrbitCameraState = s.update(320, 0, 0, 1280, 720);
    assert_eq!(small.yaw, large.yaw);
    // a quarter-viewport drag is a quarter of a half-turn: pi/4
    assert_eq!(small.yaw, 785398);
}

#[test]
fn leftward_drag_wraps_yaw_below_zero() {
    let s: OrbitCameraState = Default::default();
    let n: OrbitCameraState = s.update(-400, 0, 0, 800, 600);
    // a quarter-turn leftward lands just below a full turn
    assert_eq!(n.yaw as i64, TAU_URAD - 1570796);
}

#[test]
fn extreme_drags_keep_pitch_strictly_inside_its_range() {
    let s: OrbitCameraState = Default::default();
    let up: OrbitCameraState = s.update(0, i64::MAX, 0, 800, 600);
    assert_eq!(up.pitch, PITCH_LIMIT_URAD);
    assert!(up.pitch < 1570796);
    let down: OrbitCameraState = s.update(0, i64::MIN, 0, 800, 600);
    assert_eq!(down.pitch, -PITCH_LIMIT_URAD);
    assert!(down.pitch > -1570796);
}

#[test]
fn one_scroll_step_zooms_by_ten_percent() {
    let s: OrbitCameraState = Default::default();
    let closer: OrbitCameraState = s.update(0, 0, 1, 800, 600);
    assert_eq!(closer.radius, 9000);
    let farther: OrbitCameraState = s.update(0, 0, -1, 800, 600);
    assert_eq!(farther.radius, 11000);
}

#[test]
fn scroll_clamps_radius_exactly_to_the_floor() {
    let mut s: OrbitCameraState = Default::default();
    s = s.update(0, 0, 9, 800, 600);
    assert_eq!(s.radius, 1000);
    s = s.update(0, 0, 9, 800, 600);
    assert_eq!(s.radius, 100);
    s = s.update(0, 0, 9, 800, 600);
    // 100 * 0.1 = 10 would fall below the floor: clamped exactly to it
    assert_eq!(s.radius, RADIUS_MIN_MILLI);
    s = s.update(0, 0, 9, 800, 600);
    assert_eq!(s.radius, RADIUS_MIN_MILLI);
}

#[test]
fn radius_survives_extreme_scroll_inputs() {
    let mut s: OrbitCameraState = Default::default();
    let mut i: usize = 0;
    while i < 64 {
        s = s.update(0, 0, i64::MAX, 800, 600);
        assert!(s.radius > 0);
        i += 1;
    }
    assert_eq!(s.radius, RADIUS_MIN_MILLI);
    let grown: OrbitCameraState = s.update(0, 0, i64::MIN, 800, 600);
    // one step of the clamped maximal zoom-out: 50 * 1.9 = 95
    assert_eq!(grown.radius, 95);
}

#[test]
fn overshooting_pitch_flips_and_an_equal_drag_back_unflips() {
    let s: OrbitCameraState = Default::default();
    let over: OrbitCameraState = s.update(0, 600, 0, 1000, 1000);
    // 600 px on a 1000 px viewport is ~1.88 rad, past the clamp
    assert!(over.upside_down);
    assert_eq!(over.pitch, PITCH_LIMIT_URAD);
    let back: OrbitCameraState = over.update(0, -600, 0, 1000, 1000);
    assert!(!back.upside_down);
    assert_eq!(back.pitch, -384955);
}

#[test]
fn upside_down_inverts_horizontal_drag() {
    let s: OrbitCameraState = Default::default();
    let over: OrbitCameraState = s.update(0, 600, 0, 1000, 1000);
    assert!(over.upside_down);
    assert_eq!(over.yaw, 0);
    // while flipped, a rightward drag turns the other way
    let turned: OrbitCameraState = over.update(100, 0, 0, 1000, 1000);
    assert_eq!(turned.yaw as i64, TAU_URAD - 314159);
    // once restored, the same drag turns the normal way again
    let back: OrbitCameraState = over.update(0, -600, 0, 1000, 1000);
    assert!(!back.upside_down);
    let turned_back: OrbitCameraState = back.update(100, 0, 0, 1000, 1000);
    assert_eq!(turned_back.yaw, 314159);
}

#[test]
fn scroll_only_frames_leave_the_flip_flag_alone() {
    let s: OrbitCameraState = Default::default();
    let over: OrbitCameraState = s.update(0, 600, 0, 1000, 1000);
    assert!(over.upside_down);
    let zoomed: OrbitCameraState = over.update(0, 0, 1, 1000, 1000);
    assert!(zoomed.upside_down);
    assert_eq!(zoomed.pitch, over.pitch);
    assert_eq!(zoomed.yaw, over.yaw);
}

#[test]
fn systime_reports_a_post_epoch_clock() {
    let t: usize = systime();
    assert!(t > 0);
}
