use pan_orbit::fixed::Fx;
use pan_orbit::orbit::{
    accumulate_scroll, frame_step, orbit_update_step, rotation_input, PanOrbitCamera, Vec2Fx,
    Vec3Fx, INITIAL_RADIUS, MIN_RADIUS,
};

fn fx(raw: i64) -> Fx {
    Fx { raw }
}

fn default_cam() -> PanOrbitCamera {
    PanOrbitCamera::default()
}

fn no_rotation() -> Vec2Fx {
    Vec2Fx { x: fx(0), y: fx(0) }
}

#[test]
fn default_state_is_bootstrap_state() {
    let cam = default_cam();
    assert_eq!(cam.focus, Vec3Fx { x: fx(0), y: fx(0), z: fx(0) });
    assert_eq!(cam.radius.raw, INITIAL_RADIUS);
    assert_eq!(cam.radius.raw, 55_000_000); // 55.0 units
    assert!(!cam.upside_down);
}

#[test]
fn zoom_in_one_unit_from_55_gives_44() {
    let mut cam = default_cam();
    let step = orbit_update_step(&mut cam, no_rotation(), fx(1_000_000), 800, 600);
    assert_eq!(cam.radius.raw, 44_000_000); // 55 - 1*55*0.2 = 44.0
    assert!(!step.rotate);
}

#[test]
fn zoom_out_one_unit_from_55_gives_66() {
    let mut cam = default_cam();
    let step = orbit_update_step(&mut cam, no_rotation(), fx(-1_000_000), 800, 600);
    assert_eq!(cam.radius.raw, 66_000_000); // 55 - (-1)*55*0.2 = 66.0
    assert!(!step.rotate);
}

#[test]
fn zoom_below_floor_clamps_to_exactly_min_radius() {
    let mut cam = default_cam();
    cam.radius = fx(1_000_000); // 1.0
    let _ = orbit_update_step(&mut cam, no_rotation(), fx(10_000_000), 800, 600);
    // raw result 1 - 10*1*0.2 = -1.0 clamps to exactly 0.05
    assert_eq!(cam.radius.raw, MIN_RADIUS);
    assert_eq!(cam.radius.raw, 50_000);
    assert!(cam.radius.raw > 0);
}

#[test]
fn radius_floor_holds_over_any_scroll_sequence() {
    let mut cam = default_cam();
    let scrolls: [i64; 7] = [
        10_000_000,
        -3_000_000,
        500_000_000,
        1,
        -1,
        1_000_000_000,
        42,
    ];
    for s in scrolls {
        let _ = orbit_update_step(&mut cam, no_rotation(), fx(s), 800, 600);
        assert!(cam.radius.raw >= MIN_RADIUS);
    }
}

#[test]
fn null_input_frame_changes_nothing() {
    let mut cam = default_cam();
    cam.radius = fx(12_345_678);
    let before = cam;
    let step = orbit_update_step(&mut cam, no_rotation(), fx(0), 800, 600);
    assert_eq!(cam, before);
    assert!(!step.rotate);
    assert_eq!(step.delta_yaw.raw, 0);
    assert_eq!(step.delta_pitch.raw, 0);
}

#[test]
fn zero_scroll_leaves_radius_even_below_floor() {
    // a no-scroll frame applies no clamp: the radius is left alone
    let mut cam = default_cam();
    cam.radius = fx(10); // far below the floor
    let _ = orbit_update_step(&mut cam, no_rotation(), fx(0), 800, 600);
    assert_eq!(cam.radius.raw, 10);
}

#[test]
fn rotation_arithmetic_at_sixtieth_of_a_second() {
    // dt close to 1/60 s: rotation input 120 * dt is close to 2.0 units
    let rm = rotation_input(fx(16_667));
    assert_eq!(rm.x.raw, 2_000_040);
    assert_eq!(rm.y.raw, 0);
    assert!((rm.x.raw - 2_000_000).abs() < 1_000);

    let mut cam = default_cam();
    let step = orbit_update_step(&mut cam, rm, fx(0), 800, 600);
    assert!(step.rotate);
    // (2.0 / 800) * 2*pi is about 0.015708 rad; not negated right side up
    assert_eq!(step.delta_yaw.raw, 15_707);
    assert!(step.delta_yaw.raw > 0);
    assert_eq!(step.delta_pitch.raw, 0);
}

#[test]
fn yaw_delta_sign_flips_when_upside_down() {
    let rm = Vec2Fx { x: fx(2_000_000), y: fx(0) };

    let mut up = default_cam();
    let step_up = orbit_update_step(&mut up, rm, fx(0), 800, 600);

    let mut down = default_cam();
    down.upside_down = true;
    let step_down = orbit_update_step(&mut down, rm, fx(0), 800, 600);

    assert_eq!(step_up.delta_yaw.raw, 15_707);
    assert_eq!(step_down.delta_yaw.raw, -15_707);
    assert_eq!(step_down.delta_yaw.raw, -step_up.delta_yaw.raw);
    assert!(step_up.delta_yaw.raw > 0 && step_down.delta_yaw.raw < 0);
    // the flag itself is never toggled by the update
    assert!(down.upside_down);
    assert!(!up.upside_down);
}

#[test]
fn pitch_is_twice_as_sensitive_as_yaw() {
    // same input on both axes, square viewport: pitch delta is double
    let rm = Vec2Fx { x: fx(600_000), y: fx(600_000) };
    let mut cam = default_cam();
    let step = orbit_update_step(&mut cam, rm, fx(0), 600, 600);
    assert!(step.rotate);
    assert_eq!(step.delta_yaw.raw, 6_283); // (0.6/600) * 2*pi
    assert_eq!(step.delta_pitch.raw, 12_566); // (0.6/600) * 4*pi
    assert_eq!(step.delta_pitch.raw, 2 * step.delta_yaw.raw);
}

#[test]
fn degenerate_viewport_skips_rotation_but_zoom_still_applies() {
    let rm = Vec2Fx { x: fx(2_000_000), y: fx(0) };
    let mut cam = default_cam();
    let step = orbit_update_step(&mut cam, rm, fx(1_000_000), 0, 600);
    assert!(!step.rotate);
    assert_eq!(step.delta_yaw.raw, 0);
    assert_eq!(cam.radius.raw, 44_000_000);

    let mut cam2 = default_cam();
    let step2 = orbit_update_step(&mut cam2, rm, fx(1_000_000), 800, 0);
    assert!(!step2.rotate);
    assert_eq!(cam2.radius.raw, 44_000_000);
}

#[test]
fn focus_and_flag_are_never_touched_by_update() {
    let rm = Vec2Fx { x: fx(2_000_000), y: fx(300_000) };
    let mut cam = default_cam();
    cam.focus = Vec3Fx { x: fx(7), y: fx(-8), z: fx(9) };
    let _ = orbit_update_step(&mut cam, rm, fx(3_000_000), 800, 600);
    assert_eq!(cam.focus, Vec3Fx { x: fx(7), y: fx(-8), z: fx(9) });
    assert!(!cam.upside_down);
}

#[test]
fn scroll_queue_drains_to_a_single_sum() {
    let events = vec![fx(1_000_000), fx(-250_000), fx(500_000), fx(-1)];
    let total = accumulate_scroll(&events);
    assert_eq!(total.raw, 1_249_999);
}

#[test]
fn empty_scroll_queue_sums_to_zero() {
    let events: Vec<Fx> = Vec::new();
    let total = accumulate_scroll(&events);
    assert_eq!(total.raw, 0);
}

#[test]
fn frame_step_runs_the_whole_frame() {
    let mut cam = default_cam();
    let events = vec![fx(400_000), fx(600_000)]; // sums to one scroll unit
    let step = frame_step(&mut cam, &events, fx(16_667), 800, 600);
    assert_eq!(cam.radius.raw, 44_000_000);
    assert!(step.rotate);
    assert_eq!(step.delta_yaw.raw, 15_707);
    assert_eq!(step.delta_pitch.raw, 0);
}

#[test]
fn frame_step_with_zero_dt_and_no_events_is_a_no_op() {
    let mut cam = default_cam();
    let before = cam;
    let events: Vec<Fx> = Vec::new();
    let step = frame_step(&mut cam, &events, fx(0), 800, 600);
    assert_eq!(cam, before);
    assert!(!step.rotate);
}
