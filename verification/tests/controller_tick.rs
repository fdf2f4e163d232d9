//! Whole-controller ticks: engine gating, exact force and torque values,
//! acceleration clamping, and closed-loop step responses against a simple
//! first-order plant.

use drone_control::control::{
    engine_off, manual_control, update_drone_forces, vertical_velocity_command, EngineState,
    FlightController, ForceCommand, SimulationInput, VehicleState,
};

fn resting_vehicle() -> VehicleState {
    VehicleState {
        pos_x: 0,
        pos_y: 0,
        pos_z: 0,
        vel_x: 0,
        vel_y: 0,
        vel_z: 0,
        yaw: 0,
        pitch: 0,
        roll: 0,
        mass: 1_000_000,
        inertia_x: 2_000_000,
        inertia_y: 2_000_000,
        inertia_z: 2_000_000,
    }
}

fn powered(c: &mut FlightController) {
    let mut toggle = SimulationInput::idle();
    toggle.toggle_engine = true;
    manual_control(c, &toggle, 16_667);
    assert!(matches!(c.engine, EngineState::On));
}

#[test]
fn engine_off_emits_exactly_zero() {
    // Whatever the controllers' internal state holds, an off engine means
    // a zero command and untouched controllers.
    let mut c = FlightController::new();
    c.hover.target = 90_000_000;
    c.hover.integral_e = 123_456_789;
    c.pitch.prev_e = -5_000;
    let before_integral = c.hover.integral_e;
    let cmd = update_drone_forces(&mut c, &resting_vehicle(), 16_667);
    assert_eq!(cmd, ForceCommand::zero());
    assert_eq!(c.hover.integral_e, before_integral);
    assert_eq!(c.pitch.prev_e, -5_000);
}

#[test]
fn engine_off_zeroes_a_standing_command() {
    let c = FlightController::new();
    let mut cmd = ForceCommand {
        force_y: 7,
        torque_x: -3,
        torque_y: 11,
        torque_z: 5,
        accel_x: 2,
        accel_z: -9,
    };
    engine_off(&c, &mut cmd);
    assert_eq!(cmd, ForceCommand::zero());

    let mut on = FlightController::new();
    powered(&mut on);
    let mut kept = ForceCommand {
        force_y: 7,
        torque_x: -3,
        torque_y: 11,
        torque_z: 5,
        accel_x: 2,
        accel_z: -9,
    };
    engine_off(&on, &mut kept);
    assert_eq!(kept.force_y, 7);
}

#[test]
fn toggle_is_edge_triggered() {
    let mut c = FlightController::new();
    let mut toggle = SimulationInput::idle();
    toggle.toggle_engine = true;
    manual_control(&mut c, &toggle, 16_667);
    assert!(matches!(c.engine, EngineState::On));
    // A second press toggles back off; a tick without a press changes
    // nothing.
    manual_control(&mut c, &toggle, 16_667);
    assert!(matches!(c.engine, EngineState::Off));
    let idle = SimulationInput::idle();
    manual_control(&mut c, &idle, 16_667);
    assert!(matches!(c.engine, EngineState::Off));
}

#[test]
fn turning_on_rearms_the_setpoints() {
    let mut c = FlightController::new();
    c.hover.target = 50_000_000;
    c.pitch.target = 100_000;
    c.yaw.target = 900_000;
    c.cruise_x.target = 4_000_000;
    powered(&mut c);
    // Altitude re-arms at its lower bound, everything else at neutral.
    assert_eq!(c.hover.target, 0);
    assert_eq!(c.pitch.target, 0);
    assert_eq!(c.yaw.target, 0);
    assert_eq!(c.cruise_x.target, 0);
}

#[test]
fn reset_zeroes_targets_only_while_off() {
    let mut c = FlightController::new();
    c.hover.target = 40_000_000;
    c.roll.target = -100_000;
    let mut reset = SimulationInput::idle();
    reset.reset_targets = true;
    manual_control(&mut c, &reset, 16_667);
    assert_eq!(c.hover.target, 0);
    assert_eq!(c.roll.target, 0);

    powered(&mut c);
    c.hover.target = 40_000_000;
    manual_control(&mut c, &reset, 16_667);
    // Engine on: the reset is ignored.
    assert_eq!(c.hover.target, 40_000_000);
}

#[test]
fn hover_at_rest_exactly_cancels_gravity() {
    let mut c = FlightController::new();
    powered(&mut c);
    let cmd = update_drone_forces(&mut c, &resting_vehicle(), 16_667);
    // Zero error on every axis: thrust is mass * gravity, nothing else.
    assert_eq!(cmd.force_y, 9_810_000);
    assert_eq!(cmd.torque_x, 0);
    assert_eq!(cmd.torque_y, 0);
    assert_eq!(cmd.torque_z, 0);
    assert_eq!(cmd.accel_x, 0);
    assert_eq!(cmd.accel_z, 0);
}

#[test]
fn hover_step_has_exact_terms() {
    let mut c = FlightController::new();
    powered(&mut c);
    // One tick at rest, so the step under test is an ordinary one rather
    // than the freshly-seeded resume tick.
    update_drone_forces(&mut c, &resting_vehicle(), 16_667);
    c.hover.target = 2_000_000;
    let cmd = update_drone_forces(&mut c, &resting_vehicle(), 16_667);
    // At ground level the scheduled gain is min_kp = 0.6.  The three terms
    // are 0.6*2, 0.23*0.033334 and 1.09*2/0.016667, floored in fixed
    // point; the thrust adds gravity and scales by the unit mass.
    assert_eq!(c.hover.integral_e, 33_334);
    assert_eq!(c.hover.prev_e, 2_000_000);
    assert_eq!(c.hover.kp, 600_000);
    assert_eq!(cmd.force_y, 1_200_000 + 7_666 + 130_797_384 + 9_810_000);
}

#[test]
fn pitch_torque_scales_by_inertia() {
    let mut c = FlightController::new();
    powered(&mut c);
    update_drone_forces(&mut c, &resting_vehicle(), 16_667);
    let mut v = resting_vehicle();
    v.pitch = 100_000;
    let cmd = update_drone_forces(&mut c, &v, 16_667);
    // e = -0.1 rad; kp 5, ki 0.1, kd 1.2; torque = inertia (2) times the
    // angular acceleration.
    assert_eq!(cmd.torque_x, -15_400_048);
    assert_eq!(c.pitch.prev_e, -100_000);
}

#[test]
fn cruise_acceleration_is_clamped() {
    let mut c = FlightController::new();
    powered(&mut c);
    c.cruise_x.target = 10_000_000;
    c.cruise_z.target = -10_000_000;
    let cmd = update_drone_forces(&mut c, &resting_vehicle(), 16_667);
    // The raw output (30 units from the P-term alone) is clamped to the
    // configured five-unit acceleration limit.
    assert_eq!(cmd.accel_x, 5_000_000);
    assert_eq!(cmd.accel_z, -5_000_000);
}

#[test]
fn attitude_gain_scheduling_follows_the_angle() {
    // With scheduling enabled on the pitch axis, the proportional gain is
    // rescheduled each tick from the angle's magnitude against the
    // admissible range: halfway to the limit lands halfway up the span.
    let mut c = FlightController::new();
    powered(&mut c);
    c.pitch.gain_sched = true;
    let mut v = resting_vehicle();
    v.pitch = -261_799;
    update_drone_forces(&mut c, &v, 16_667);
    assert_eq!(c.pitch.kp, 3_999_996);
    v.pitch = 0;
    update_drone_forces(&mut c, &v, 16_667);
    assert_eq!(c.pitch.kp, 2_000_000);
}

#[test]
fn resume_seeds_the_derivative() {
    // A stale previous error from before the engine went off cannot fire
    // a derivative spike on the first powered tick: the error is seeded
    // afresh, so an at-rest vehicle sees pure gravity cancellation.
    let mut c = FlightController::new();
    powered(&mut c);
    c.hover.prev_e = 9_000_000;
    c.pitch.prev_e = -400_000;
    let cmd = update_drone_forces(&mut c, &resting_vehicle(), 16_667);
    assert_eq!(cmd.force_y, 9_810_000);
    assert_eq!(cmd.torque_x, 0);
    // The flag clears after one powered tick; a later stale error (which
    // the library itself never produces) would reach the derivative.
    let mut c2 = FlightController::new();
    powered(&mut c2);
    update_drone_forces(&mut c2, &resting_vehicle(), 16_667);
    c2.hover.prev_e = 9_000_000;
    let spiky = update_drone_forces(&mut c2, &resting_vehicle(), 16_667);
    assert!(spiky.force_y < 0);
}

#[test]
fn engine_starts_off() {
    assert_eq!(EngineState::default(), EngineState::Off);
    let c = FlightController::new();
    assert!(matches!(c.engine, EngineState::Off));
}

#[test]
fn cruise_step_response_converges() {
    // First-order plant: the velocity integrates the commanded
    // acceleration.  With the default tuning the loop reaches the target
    // to within 0.5 units inside 10 simulated seconds at dt = 1/60, and
    // neither the velocity nor the integral accumulator grows without
    // bound over a full simulated minute.
    let mut c = FlightController::new();
    powered(&mut c);
    c.cruise_x.target = 8_000_000;
    let dt: i64 = 16_667;
    let mut vel: i64 = 0;
    let mut converged_at: Option<usize> = None;
    for k in 0..3600 {
        let mut v = resting_vehicle();
        v.vel_x = vel;
        c.cruise_x.target = 8_000_000;
        let cmd = update_drone_forces(&mut c, &v, dt);
        vel += ((cmd.accel_x as i128 * dt as i128) / 1_000_000) as i64;
        if converged_at.is_none() && (8_000_000 - vel).abs() < 500_000 {
            converged_at = Some(k);
        }
        assert!(vel.abs() < 20_000_000, "velocity diverged at tick {k}: {vel}");
        assert!(c.cruise_x.integral_e.abs() < 20_000_000, "integral wound up at tick {k}");
    }
    let reached = converged_at.expect("never converged");
    assert!(reached < 600, "converged only at tick {reached}");
    assert!((8_000_000 - vel).abs() < 500_000);
}

#[test]
fn velocity_command_is_low_pass_filtered() {
    // A pure P controller commanding 10 units of velocity, filtered half
    // way from a standing start: the emitted command is 5.
    let mut c = FlightController::new();
    c.hover.target = 10_000_000;
    c.hover.kp = 1_000_000;
    c.hover.ki = 0;
    c.hover.kd = 0;
    c.hover.gain_sched = false;
    let v_cmd = vertical_velocity_command(&mut c.hover, 0, 0, 500_000, 16_667);
    assert_eq!(v_cmd, 5_000_000);
    assert_eq!(c.hover.prev_e, 10_000_000);
}

#[test]
fn hover_velocity_mode_converges() {
    // The altitude controller's velocity-command variant against the same
    // first-order plant: the smoothed velocity command integrates into
    // position and settles on the target.
    let mut c = FlightController::new();
    c.hover.target = 10_000_000;
    let dt: i64 = 16_667;
    let alpha: i64 = 150_000;
    let mut y: i64 = 0;
    let mut vy: i64 = 0;
    let mut converged_at: Option<usize> = None;
    for k in 0..3600 {
        vy = vertical_velocity_command(&mut c.hover, y, vy, alpha, dt);
        y += ((vy as i128 * dt as i128) / 1_000_000) as i64;
        c.hover.target = 10_000_000;
        if converged_at.is_none() && (10_000_000 - y).abs() < 500_000 {
            converged_at = Some(k);
        }
        assert!(y.abs() < 30_000_000, "altitude diverged at tick {k}: {y}");
        assert!(c.hover.integral_e.abs() < 30_000_000, "integral wound up at tick {k}");
    }
    let reached = converged_at.expect("never converged");
    assert!(reached < 600, "converged only at tick {reached}");
    assert!((10_000_000 - y).abs() < 500_000);
}
