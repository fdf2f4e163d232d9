//! The manual setpoint governor: rate limiting, setpoint bounds, direction
//! normalization, and the repeat timer.

use drone_control::control::{manual_control, EngineState, FlightController, SimulationInput};
use drone_control::governor::{normalize_direction, Delay};

fn powered_on() -> FlightController {
    let mut c = FlightController::new();
    let mut toggle = SimulationInput::idle();
    toggle.toggle_engine = true;
    manual_control(&mut c, &toggle, 16_667);
    assert!(matches!(c.engine, EngineState::On));
    c
}

#[test]
fn delay_fires_exactly_on_interval() {
    let mut d = Delay::new(50_000);
    assert!(!d.tick(49_999));
    assert_eq!(d.elapsed, 49_999);
    assert!(d.tick(1));
    assert_eq!(d.elapsed, 0);
}

#[test]
fn delay_keeps_remainder_after_long_tick() {
    let mut d = Delay::new(50_000);
    assert!(d.tick(120_000));
    assert_eq!(d.elapsed, 20_000);
}

#[test]
fn climb_rate_is_one_step_per_interval() {
    // Holding ascend for n completed governor intervals raises the target
    // by exactly n * rate.
    let mut c = powered_on();
    let mut held = SimulationInput::idle();
    held.ascend = true;
    for _ in 0..5 {
        manual_control(&mut c, &held, 50_000);
    }
    assert_eq!(c.hover.target, 5 * 2_000_000);
}

#[test]
fn climb_is_clamped_at_the_ceiling() {
    let mut c = powered_on();
    let mut held = SimulationInput::idle();
    held.ascend = true;
    for _ in 0..75 {
        manual_control(&mut c, &held, 50_000);
    }
    // 75 steps of 2 units would be 150; the admissible ceiling is 120.
    assert_eq!(c.hover.target, 120_000_000);
}

#[test]
fn no_increment_before_the_interval_completes() {
    let mut c = powered_on();
    let mut held = SimulationInput::idle();
    held.ascend = true;
    manual_control(&mut c, &held, 16_667);
    manual_control(&mut c, &held, 16_667);
    // 33_334 of 50_000 elapsed: nothing applied yet.
    assert_eq!(c.hover.target, 0);
    manual_control(&mut c, &held, 16_667);
    // 50_001 elapsed: exactly one increment.
    assert_eq!(c.hover.target, 2_000_000);
}

#[test]
fn descent_is_floored_at_the_ground() {
    let mut c = powered_on();
    let mut held = SimulationInput::idle();
    held.descend = true;
    for _ in 0..4 {
        manual_control(&mut c, &held, 50_000);
    }
    assert_eq!(c.hover.target, 0);
}

#[test]
fn targets_stay_bounded_under_any_commands() {
    // A long mixed command stream never pushes any setpoint out of its
    // admissible range.
    let mut c = powered_on();
    for k in 0..600u32 {
        let mut i = SimulationInput::idle();
        i.ascend = k % 3 == 0;
        i.descend = k % 7 == 1;
        i.pitch_back = k % 2 == 0;
        i.pitch_forward = k % 5 == 2;
        i.roll_left = k % 4 == 1;
        i.roll_right = k % 6 == 3;
        i.yaw_left = k % 9 == 4;
        i.move_forward = k % 2 == 1;
        i.move_left = k % 3 == 2;
        manual_control(&mut c, &i, 50_000);
        assert!((0..=120_000_000).contains(&c.hover.target));
        assert!((-523_599..=523_599).contains(&c.pitch.target));
        assert!((-523_599..=523_599).contains(&c.roll.target));
        assert!((-10_000_000..=10_000_000).contains(&c.cruise_x.target));
        assert!((-10_000_000..=10_000_000).contains(&c.cruise_z.target));
    }
}

#[test]
fn release_self_levels_pitch_and_roll() {
    let mut c = powered_on();
    let mut held = SimulationInput::idle();
    held.pitch_back = true;
    held.roll_left = true;
    for _ in 0..3 {
        manual_control(&mut c, &held, 50_000);
    }
    assert_eq!(c.pitch.target, 3 * 87_266);
    assert_eq!(c.roll.target, 3 * 87_266);
    let mut released = SimulationInput::idle();
    released.pitch_back_released = true;
    released.roll_left_released = true;
    manual_control(&mut c, &released, 16_667);
    assert_eq!(c.pitch.target, 0);
    assert_eq!(c.roll.target, 0);
}

#[test]
fn yaw_keeps_the_last_heading() {
    let mut c = powered_on();
    let mut held = SimulationInput::idle();
    held.yaw_right = true;
    for _ in 0..2 {
        manual_control(&mut c, &held, 50_000);
    }
    assert_eq!(c.yaw.target, 2 * 87_266);
    // Releasing yaw does not self-level: the heading stays commanded.
    let idle = SimulationInput::idle();
    manual_control(&mut c, &idle, 50_000);
    assert_eq!(c.yaw.target, 2 * 87_266);
}

#[test]
fn diagonal_direction_has_unit_components() {
    // Two orthogonal held commands give the diagonal components, not a
    // square-root-of-two-length vector.
    assert_eq!(normalize_direction(true, false, false, true), (707_107, -707_107));
    assert_eq!(normalize_direction(false, true, true, false), (-707_107, 707_107));
    assert_eq!(normalize_direction(false, false, false, true), (1_000_000, 0));
    assert_eq!(normalize_direction(true, false, false, false), (0, -1_000_000));
    // Opposed commands cancel.
    assert_eq!(normalize_direction(true, true, false, false), (0, 0));
    assert_eq!(normalize_direction(false, false, false, false), (0, 0));
}

#[test]
fn direction_length_is_one() {
    for (f, b, l, r) in [
        (true, false, false, true),
        (true, false, true, false),
        (false, true, false, true),
        (false, true, true, false),
        (true, false, false, false),
        (false, false, true, false),
    ] {
        let (nx, nz) = normalize_direction(f, b, l, r);
        let len = ((nx as f64 / 1e6).powi(2) + (nz as f64 / 1e6).powi(2)).sqrt();
        assert!((len - 1.0).abs() < 1e-3, "length {len}");
    }
}

#[test]
fn cruise_targets_follow_the_diagonal() {
    let mut c = powered_on();
    let mut held = SimulationInput::idle();
    held.move_forward = true;
    held.move_right = true;
    manual_control(&mut c, &held, 50_000);
    // One completed interval: rate (one velocity unit) times the diagonal
    // component on each axis.
    assert_eq!(c.cruise_x.target, 707_107);
    assert_eq!(c.cruise_z.target, -707_107);
}

#[test]
fn cruise_targets_snap_to_zero_on_release() {
    let mut c = powered_on();
    let mut held = SimulationInput::idle();
    held.move_forward = true;
    for _ in 0..4 {
        manual_control(&mut c, &held, 50_000);
    }
    assert_eq!(c.cruise_z.target, -4_000_000);
    let idle = SimulationInput::idle();
    manual_control(&mut c, &idle, 16_667);
    assert_eq!(c.cruise_x.target, 0);
    assert_eq!(c.cruise_z.target, 0);
}
