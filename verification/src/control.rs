//! The flight controller: engine state machine, manual setpoint governor,
//! and the per-tick cascade of PID controllers.
//!
//! One simulation tick is two calls.  [`manual_control`] feeds the tick's
//! input snapshot through the governor: it rate-limits held commands into
//! bounded setpoint changes and handles the edge-triggered engine toggle.
//! [`update_drone_forces`] then reads the vehicle state and, when the
//! engine is on, runs every axis's PID to produce the force/torque command
//! for the host's physics integrator; when the engine is off it leaves the
//! controllers untouched and the command is exactly zero.

use crate::angle::{angle_error, wrapped};
use crate::fixed::{abs_sat, mul_div, sat_add, sat_i64, sat_sub, SCALE};
use crate::governor::{
    lower_target, lowered, norm_x, norm_z, normalize_direction, nudge_target, nudged, raise_target,
    raised, rearm_target_low, rearmed_low, zero_target, zeroed, Delay,
};
use crate::pid::{
    dt_floored, next_integral, pid_next, pid_out, pid_raw, scheduled, smooth_toward, PidAxis,
};
use vstd::prelude::*;

verus! {

/// Standard gravitational acceleration, in fixed-point units per second
/// squared, cancelled by the hover thrust.
pub const GRAVITY_ACCEL: i64 = 9_810_000;

/// Default repeat interval of the setpoint governor: 0.05 fixed-point
/// seconds between applied increments while a command is held.
pub const GOVERNOR_INTERVAL: i64 = 50_000;

/// Whether the engine — and with it every controller — is running.
#[derive(Clone, Copy, Debug, PartialEq, Eq, Structural)]
pub enum EngineState {
    /// Controllers execute and forces are emitted.
    On,
    /// Nothing executes; the emitted command is exactly zero.
    Off,
}

impl Default for EngineState {
    /// The engine starts off.
    fn default() -> (e: EngineState)
        ensures
            e == EngineState::Off,
    {
        EngineState::Off
    }
}

/// Per-tick snapshot of the vehicle, read from the host's physics layer.
/// Positions are units, velocities units per second, angles fixed-point
/// radians; `mass` and the principal moments of inertia are non-negative.
#[derive(Clone, Copy, Debug)]
pub struct VehicleState {
    /// World x position.
    pub pos_x: i64,
    /// World y (vertical) position: the controlled altitude.
    pub pos_y: i64,
    /// World z position.
    pub pos_z: i64,
    /// Linear velocity, x component: the cruise-x controlled value.
    pub vel_x: i64,
    /// Linear velocity, y component.
    pub vel_y: i64,
    /// Linear velocity, z component: the cruise-z controlled value.
    pub vel_z: i64,
    /// Yaw angle (about y).
    pub yaw: i64,
    /// Pitch angle (about x).
    pub pitch: i64,
    /// Roll angle (about z).
    pub roll: i64,
    /// Vehicle mass.
    pub mass: i64,
    /// Principal moment of inertia about x.
    pub inertia_x: i64,
    /// Principal moment of inertia about y.
    pub inertia_y: i64,
    /// Principal moment of inertia about z.
    pub inertia_z: i64,
}

impl VehicleState {
    /// Well-formedness: mass and inertia do not point the thrust backwards.
    pub open spec fn wf(self) -> bool {
        0 <= self.mass && 0 <= self.inertia_x && 0 <= self.inertia_y && 0 <= self.inertia_z
    }
}

/// Per-tick snapshot of the operator's commands, computed by the host from
/// its raw input events: level-triggered `*_held` flags, edge-triggered
/// release flags for the self-leveling axes, and the edge-triggered engine
/// toggle and target reset.
#[derive(Clone, Copy, Debug)]
pub struct SimulationInput {
    /// Altitude up is held.
    pub ascend: bool,
    /// Altitude down is held.
    pub descend: bool,
    /// Nose-down pitch is held.
    pub pitch_forward: bool,
    /// Nose-up pitch is held.
    pub pitch_back: bool,
    /// Roll toward the left is held.
    pub roll_left: bool,
    /// Roll toward the right is held.
    pub roll_right: bool,
    /// Yaw toward the left is held.
    pub yaw_left: bool,
    /// Yaw toward the right is held.
    pub yaw_right: bool,
    /// Horizontal movement forward is held.
    pub move_forward: bool,
    /// Horizontal movement backward is held.
    pub move_back: bool,
    /// Horizontal movement to the left is held.
    pub move_left: bool,
    /// Horizontal movement to the right is held.
    pub move_right: bool,
    /// Nose-down pitch was released this tick (self-levels the axis).
    pub pitch_forward_released: bool,
    /// Nose-up pitch was released this tick.
    pub pitch_back_released: bool,
    /// Left roll was released this tick.
    pub roll_left_released: bool,
    /// Right roll was released this tick.
    pub roll_right_released: bool,
    /// The engine toggle was pressed this tick (edge, not level).
    pub toggle_engine: bool,
    /// The target reset was pressed this tick; honoured only while the
    /// engine is off.
    pub reset_targets: bool,
}

impl SimulationInput {
    /// A snapshot with nothing held and nothing pressed.
    pub fn idle() -> (i: SimulationInput)
        ensures
            i == (SimulationInput {
                ascend: false,
                descend: false,
                pitch_forward: false,
                pitch_back: false,
                roll_left: false,
                roll_right: false,
                yaw_left: false,
                yaw_right: false,
                move_forward: false,
                move_back: false,
                move_left: false,
                move_right: false,
                pitch_forward_released: false,
                pitch_back_released: false,
                roll_left_released: false,
                roll_right_released: false,
                toggle_engine: false,
                reset_targets: false,
            }),
    {
        SimulationInput {
            ascend: false,
            descend: false,
            pitch_forward: false,
            pitch_back: false,
            roll_left: false,
            roll_right: false,
            yaw_left: false,
            yaw_right: false,
            move_forward: false,
            move_back: false,
            move_left: false,
            move_right: false,
            pitch_forward_released: false,
            pitch_back_released: false,
            roll_left_released: false,
            roll_right_released: false,
            toggle_engine: false,
            reset_targets: false,
        }
    }
}

/// Whether any governed command is held this tick.
pub open spec fn any_command_held(i: SimulationInput) -> bool {
    i.ascend || i.descend || i.pitch_forward || i.pitch_back || i.roll_left || i.roll_right
        || i.yaw_left || i.yaw_right || i.move_forward || i.move_back || i.move_left
        || i.move_right
}

/// Whether any horizontal movement command is held this tick.
pub open spec fn any_move_held(i: SimulationInput) -> bool {
    i.move_forward || i.move_back || i.move_left || i.move_right
}

/// The command the controller hands the physics layer each tick: an upward
/// thrust along the vehicle's body-up axis, a torque about each principal
/// axis, and a horizontal acceleration for each cruise axis.
#[derive(Clone, Copy, Debug, PartialEq, Eq, Structural)]
pub struct ForceCommand {
    /// Thrust along the vehicle's local up axis.
    pub force_y: i64,
    /// Torque about x (pitch).
    pub torque_x: i64,
    /// Torque about y (yaw).
    pub torque_y: i64,
    /// Torque about z (roll).
    pub torque_z: i64,
    /// Acceleration command for the x velocity axis.
    pub accel_x: i64,
    /// Acceleration command for the z velocity axis.
    pub accel_z: i64,
}

impl ForceCommand {
    /// Every component is exactly zero.
    pub open spec fn is_zero(self) -> bool {
        self.force_y == 0 && self.torque_x == 0 && self.torque_y == 0 && self.torque_z == 0
            && self.accel_x == 0 && self.accel_z == 0
    }

    /// The all-zero command.
    pub fn zero() -> (c: ForceCommand)
        ensures
            c.is_zero(),
            c == (ForceCommand {
                force_y: 0,
                torque_x: 0,
                torque_y: 0,
                torque_z: 0,
                accel_x: 0,
                accel_z: 0,
            }),
    {
        ForceCommand { force_y: 0, torque_x: 0, torque_y: 0, torque_z: 0, accel_x: 0, accel_z: 0 }
    }
}

/// The whole controller stack for one vehicle.
#[derive(Clone, Copy, Debug)]
pub struct FlightController {
    /// The engine gate.
    pub engine: EngineState,
    /// The governor's rate-limiting timer.
    pub delay: Delay,
    /// Altitude (hover) axis: measures `pos_y`, commands vertical
    /// acceleration turned into thrust.
    pub hover: PidAxis,
    /// Cruise axis on `vel_x`, commands a clamped acceleration.
    pub cruise_x: PidAxis,
    /// Cruise axis on `vel_z`, commands a clamped acceleration.
    pub cruise_z: PidAxis,
    /// Pitch axis: measures the pitch angle, commands torque about x.
    pub pitch: PidAxis,
    /// Roll axis: measures the roll angle, commands torque about z.
    pub roll: PidAxis,
    /// Yaw axis: measures the yaw angle, commands torque about y.
    pub yaw: PidAxis,
    /// The engine turned on since the last controller tick: the first
    /// powered tick seeds each axis's previous error with the current one,
    /// so a stale error cannot fire a derivative spike on resume.
    pub resumed: bool,
}

impl FlightController {
    /// Well-formedness of every part.
    pub open spec fn wf(self) -> bool {
        &&& self.delay.wf()
        &&& self.hover.wf()
        &&& self.cruise_x.wf()
        &&& self.cruise_z.wf()
        &&& self.pitch.wf()
        &&& self.roll.wf()
        &&& self.yaw.wf()
    }
}

/// Default altitude axis tuning: gain-scheduled proportional gain, a
/// two-unit setpoint step, altitude admissible in `[0, 120]` units.
pub open spec fn hover_defaults() -> PidAxis {
    PidAxis {
        kp: 3_000_000,
        min_kp: 600_000,
        max_kp: 6_000_000,
        ki: 230_000,
        kd: 1_090_000,
        prev_e: 0,
        integral_e: 0,
        target: 0,
        rate: 2_000_000,
        min_bound: 0,
        max_bound: 120_000_000,
        output_limit: None,
        gain_sched: true,
    }
}

/// Default pitch/roll axis tuning: a five-degree setpoint step bounded to
/// thirty degrees either way (all in fixed-point radians).
pub open spec fn attitude_defaults() -> PidAxis {
    PidAxis {
        kp: 5_000_000,
        min_kp: 2_000_000,
        max_kp: 6_000_000,
        ki: 100_000,
        kd: 1_200_000,
        prev_e: 0,
        integral_e: 0,
        target: 0,
        rate: 87_266,
        min_bound: -523_599i64,
        max_bound: 523_599,
        output_limit: None,
        gain_sched: false,
    }
}

/// Default yaw axis tuning: as pitch/roll, but the setpoint is unbounded
/// (free rotation); its error is still wrapped to the short way round.
pub open spec fn yaw_defaults() -> PidAxis {
    PidAxis {
        kp: 5_000_000,
        min_kp: 2_000_000,
        max_kp: 6_000_000,
        ki: 100_000,
        kd: 1_200_000,
        prev_e: 0,
        integral_e: 0,
        target: 0,
        rate: 87_266,
        min_bound: i64::MIN,
        max_bound: i64::MAX,
        output_limit: None,
        gain_sched: false,
    }
}

/// Default cruise axis tuning: target velocity admissible in `[-10, 10]`
/// units per second, one velocity unit of setpoint per governed increment,
/// and the acceleration output clamped to five units per second squared.
pub open spec fn cruise_defaults() -> PidAxis {
    PidAxis {
        kp: 3_000_000,
        min_kp: 3_000_000,
        max_kp: 3_000_000,
        ki: 230_000,
        kd: 1_090_000,
        prev_e: 0,
        integral_e: 0,
        target: 0,
        rate: 1_000_000,
        min_bound: -10_000_000i64,
        max_bound: 10_000_000,
        output_limit: Some(5_000_000),
        gain_sched: false,
    }
}

impl FlightController {
    /// A controller at rest: engine off, all setpoints neutral, the
    /// governor timer fresh, and every axis at its default tuning.
    pub fn new() -> (c: FlightController)
        ensures
            c.engine == EngineState::Off,
            c.delay == (Delay { elapsed: 0, interval: GOVERNOR_INTERVAL }),
            c.hover == hover_defaults(),
            c.cruise_x == cruise_defaults(),
            c.cruise_z == cruise_defaults(),
            c.pitch == attitude_defaults(),
            c.roll == attitude_defaults(),
            c.yaw == yaw_defaults(),
            c.resumed == false,
            c.wf(),
    {
        let hover = PidAxis {
            kp: 3_000_000,
            min_kp: 600_000,
            max_kp: 6_000_000,
            ki: 230_000,
            kd: 1_090_000,
            prev_e: 0,
            integral_e: 0,
            target: 0,
            rate: 2_000_000,
            min_bound: 0,
            max_bound: 120_000_000,
            output_limit: None,
            gain_sched: true,
        };
        let attitude = PidAxis {
            kp: 5_000_000,
            min_kp: 2_000_000,
            max_kp: 6_000_000,
            ki: 100_000,
            kd: 1_200_000,
            prev_e: 0,
            integral_e: 0,
            target: 0,
            rate: 87_266,
            min_bound: -523_599,
            max_bound: 523_599,
            output_limit: None,
            gain_sched: false,
        };
        let yaw = PidAxis { min_bound: i64::MIN, max_bound: i64::MAX, ..attitude };
        let cruise = PidAxis {
            kp: 3_000_000,
            min_kp: 3_000_000,
            max_kp: 3_000_000,
            ki: 230_000,
            kd: 1_090_000,
            prev_e: 0,
            integral_e: 0,
            target: 0,
            rate: 1_000_000,
            min_bound: -10_000_000,
            max_bound: 10_000_000,
            output_limit: Some(5_000_000),
            gain_sched: false,
        };
        FlightController {
            engine: EngineState::Off,
            delay: Delay::new(GOVERNOR_INTERVAL),
            hover,
            cruise_x: cruise,
            cruise_z: cruise,
            pitch: attitude,
            roll: attitude,
            yaw,
            resumed: false,
        }
    }
}

/// The engine state after (possibly) toggling.
pub open spec fn engine_after(e: EngineState, toggle: bool) -> EngineState {
    if toggle {
        if e == EngineState::On {
            EngineState::Off
        } else {
            EngineState::On
        }
    } else {
        e
    }
}

/// Whether the governor timer advances this tick: the engine is on and
/// some command is held.
pub open spec fn governor_advances(i: SimulationInput, was_on: bool) -> bool {
    was_on && any_command_held(i)
}

/// The governor timer after the tick.
pub open spec fn delay_after(d: Delay, adv: bool, dt: i64) -> Delay {
    if !adv {
        d
    } else if d.elapsed + dt >= d.interval {
        Delay { elapsed: ((d.elapsed + dt) % (d.interval as int)) as i64, ..d }
    } else {
        Delay { elapsed: (d.elapsed + dt) as i64, ..d }
    }
}

/// Whether the governor applies increments this tick.
pub open spec fn delay_fires(d: Delay, adv: bool, dt: i64) -> bool {
    adv && d.elapsed + dt >= d.interval
}

/// The altitude axis after the governor: governed up/down increments, the
/// off-engine reset, then the re-arm at the lower bound when the engine
/// turns on.
#[verifier::opaque]
pub open spec fn altitude_after(a: PidAxis, i: SimulationInput, fired: bool, was_on: bool) -> PidAxis {
    let a1 = if fired && i.ascend {
        raised(a)
    } else {
        a
    };
    let a2 = if fired && i.descend {
        lowered(a1)
    } else {
        a1
    };
    let a3 = if i.reset_targets && !was_on {
        zeroed(a2)
    } else {
        a2
    };
    if i.toggle_engine && !was_on {
        rearmed_low(a3)
    } else {
        a3
    }
}

/// An attitude axis after the governor: governed increments while held,
/// self-leveling on release, the off-engine reset, and the zeroing when
/// the engine turns on.
#[verifier::opaque]
pub open spec fn angle_axis_after(
    a: PidAxis,
    raise_held: bool,
    lower_held: bool,
    released: bool,
    i: SimulationInput,
    fired: bool,
    was_on: bool,
) -> PidAxis {
    let a1 = if fired && raise_held {
        raised(a)
    } else {
        a
    };
    let a2 = if fired && lower_held {
        lowered(a1)
    } else {
        a1
    };
    let a3 = if released {
        zeroed(a2)
    } else {
        a2
    };
    let a4 = if i.reset_targets && !was_on {
        zeroed(a3)
    } else {
        a3
    };
    if i.toggle_engine && !was_on {
        zeroed(a4)
    } else {
        a4
    }
}

/// The setpoint increment a cruise axis receives from the normalized
/// direction component `n`.
pub open spec fn cruise_increment(a: PidAxis, n: int) -> int {
    sat_i64((a.rate * n) / (SCALE as int))
}

/// A cruise axis after the governor: the setpoint snaps to neutral the
/// moment no movement command is held, otherwise each completed interval
/// moves it by the axis rate times the normalized direction component.
#[verifier::opaque]
pub open spec fn cruise_after(
    a: PidAxis,
    n: int,
    i: SimulationInput,
    fired: bool,
    was_on: bool,
) -> PidAxis {
    let a1 = if !any_move_held(i) {
        zeroed(a)
    } else if fired {
        nudged(a, cruise_increment(a, n))
    } else {
        a
    };
    let a2 = if i.reset_targets && !was_on {
        zeroed(a1)
    } else {
        a1
    };
    if i.toggle_engine && !was_on {
        zeroed(a2)
    } else {
        a2
    }
}

/// Governor phases for the altitude axis.
fn govern_altitude(a: &mut PidAxis, input: &SimulationInput, fired: bool, was_on: bool)
    requires
        old(a).wf(),
    ensures
        final(a).wf(),
        *final(a) == altitude_after(*old(a), *input, fired, was_on),
{
    proof {
        reveal(altitude_after);
    }
    if fired && input.ascend {
        raise_target(a);
    }
    if fired && input.descend {
        lower_target(a);
    }
    if input.reset_targets && !was_on {
        zero_target(a);
    }
    if input.toggle_engine && !was_on {
        rearm_target_low(a);
    }
}

/// Governor phases for one attitude axis.
fn govern_angle_axis(
    a: &mut PidAxis,
    raise_held: bool,
    lower_held: bool,
    released: bool,
    input: &SimulationInput,
    fired: bool,
    was_on: bool,
)
    requires
        old(a).wf(),
    ensures
        final(a).wf(),
        *final(a) == angle_axis_after(*old(a), raise_held, lower_held, released, *input, fired, was_on),
{
    proof {
        reveal(angle_axis_after);
    }
    if fired && raise_held {
        raise_target(a);
    }
    if fired && lower_held {
        lower_target(a);
    }
    if released {
        zero_target(a);
    }
    if input.reset_targets && !was_on {
        zero_target(a);
    }
    if input.toggle_engine && !was_on {
        zero_target(a);
    }
}

/// Governor phases for one cruise axis, fed its normalized direction
/// component.
fn govern_cruise(a: &mut PidAxis, n: i64, input: &SimulationInput, fired: bool, was_on: bool)
    requires
        old(a).wf(),
    ensures
        final(a).wf(),
        *final(a) == cruise_after(*old(a), n as int, *input, fired, was_on),
{
    proof {
        reveal(cruise_after);
    }
    let any_move = input.move_forward || input.move_back || input.move_left || input.move_right;
    if !any_move {
        zero_target(a);
    } else if fired {
        let inc = mul_div(a.rate, n, SCALE);
        nudge_target(a, inc);
    }
    if input.reset_targets && !was_on {
        zero_target(a);
    }
    if input.toggle_engine && !was_on {
        zero_target(a);
    }
}

/// One governor tick: translate the held and just-pressed commands into
/// rate-limited, bounded setpoint changes, and handle the edge-triggered
/// engine toggle (turning the engine on re-arms the altitude setpoint at
/// its lower bound and zeroes every other setpoint).  Increments are gated
/// by the engine state at the start of the tick; a toggle takes effect for
/// the next tick's controllers.
#[verifier::rlimit(100)]
pub fn manual_control(ctl: &mut FlightController, input: &SimulationInput, dt: i64)
    requires
        old(ctl).wf(),
        0 <= dt,
    ensures
        final(ctl).wf(),
        ({
            let was_on = old(ctl).engine == EngineState::On;
            let adv = governor_advances(*input, was_on);
            let fired = delay_fires(old(ctl).delay, adv, dt);
            &&& final(ctl).engine == engine_after(old(ctl).engine, input.toggle_engine)
            &&& final(ctl).resumed == (old(ctl).resumed || (input.toggle_engine && !was_on))
            &&& final(ctl).delay == delay_after(old(ctl).delay, adv, dt)
            &&& final(ctl).hover == altitude_after(old(ctl).hover, *input, fired, was_on)
            &&& final(ctl).pitch == angle_axis_after(
                old(ctl).pitch,
                input.pitch_back,
                input.pitch_forward,
                input.pitch_forward_released || input.pitch_back_released,
                *input,
                fired,
                was_on,
            )
            &&& final(ctl).roll == angle_axis_after(
                old(ctl).roll,
                input.roll_left,
                input.roll_right,
                input.roll_left_released || input.roll_right_released,
                *input,
                fired,
                was_on,
            )
            &&& final(ctl).yaw == angle_axis_after(
                old(ctl).yaw,
                input.yaw_right,
                input.yaw_left,
                false,
                *input,
                fired,
                was_on,
            )
            &&& final(ctl).cruise_x == cruise_after(
                old(ctl).cruise_x,
                norm_x(input.move_forward, input.move_back, input.move_left, input.move_right),
                *input,
                fired,
                was_on,
            )
            &&& final(ctl).cruise_z == cruise_after(
                old(ctl).cruise_z,
                norm_z(input.move_forward, input.move_back, input.move_left, input.move_right),
                *input,
                fired,
                was_on,
            )
        }),
{
    let was_on = ctl.engine == EngineState::On;
    let any_held = input.ascend || input.descend || input.pitch_forward || input.pitch_back
        || input.roll_left || input.roll_right || input.yaw_left || input.yaw_right
        || input.move_forward || input.move_back || input.move_left || input.move_right;
    let fired = if was_on && any_held {
        ctl.delay.tick(dt)
    } else {
        false
    };

    govern_altitude(&mut ctl.hover, input, fired, was_on);
    // Pitch: nose-up raises the setpoint, nose-down lowers it, release
    // self-levels.
    govern_angle_axis(
        &mut ctl.pitch,
        input.pitch_back,
        input.pitch_forward,
        input.pitch_forward_released || input.pitch_back_released,
        input,
        fired,
        was_on,
    );
    // Roll: left raises, right lowers, release self-levels.
    govern_angle_axis(
        &mut ctl.roll,
        input.roll_left,
        input.roll_right,
        input.roll_left_released || input.roll_right_released,
        input,
        fired,
        was_on,
    );
    // Yaw: no self-leveling; the last commanded heading is kept.
    govern_angle_axis(&mut ctl.yaw, input.yaw_right, input.yaw_left, false, input, fired, was_on);

    // Cruise: setpoints follow the normalized movement direction while any
    // movement command is held, and snap to neutral the moment none is.
    let n = normalize_direction(
        input.move_forward,
        input.move_back,
        input.move_left,
        input.move_right,
    );
    govern_cruise(&mut ctl.cruise_x, n.0, input, fired, was_on);
    govern_cruise(&mut ctl.cruise_z, n.1, input, fired, was_on);

    // Edge-triggered engine toggle; turning on marks the next powered
    // tick as a resume, which seeds the derivative terms afresh.
    if input.toggle_engine {
        if was_on {
            ctl.engine = EngineState::Off;
        } else {
            ctl.engine = EngineState::On;
            ctl.resumed = true;
        }
    }
}

/// An axis with its proportional gain rescheduled from the measured value,
/// where that axis asks for gain scheduling and its range allows it.
pub open spec fn sched_from(a: PidAxis, measured: i64) -> PidAxis {
    if a.gain_sched && a.max_bound >= 1 {
        scheduled(a, measured)
    } else {
        a
    }
}

/// The absolute value of an angle, saturated, as the gain-scheduling
/// measure for an attitude axis.
pub open spec fn angle_magnitude(angle: i64) -> i64 {
    sat_i64(
        if angle < 0 {
            -(angle as int)
        } else {
            angle as int
        },
    ) as i64
}

/// A linear axis's error: setpoint minus measured value, saturating.
pub open spec fn lin_error(a: PidAxis, measured: i64) -> i64 {
    sat_i64(a.target - measured) as i64
}

/// An angular axis's error: setpoint minus measured angle, wrapped the
/// short way round.
pub open spec fn ang_error(a: PidAxis, angle: i64) -> i64 {
    wrapped(a.target - angle) as i64
}

/// An axis with its previous error freshly seeded on a resume tick, so
/// the first derivative term after the engine turns on is zero instead of
/// a spike off a stale error.
pub open spec fn seeded(a: PidAxis, e: i64, resume: bool) -> PidAxis {
    if resume {
        PidAxis { prev_e: e, ..a }
    } else {
        a
    }
}

/// On a resume tick the derivative term contributes nothing: with the
/// previous error seeded to the current one, the raw PID output is the
/// proportional and integral terms alone, whatever stale error the axis
/// carried from before the engine went off.
pub proof fn lemma_resume_has_no_derivative_spike(a: PidAxis, e: i64, dt: i64)
    ensures
        pid_raw(seeded(a, e, true), e, dt) == sat_i64((a.kp * e) / (SCALE as int)) + sat_i64(
            (a.ki * next_integral(a, e, dt)) / (SCALE as int),
        ),
{
    let s = seeded(a, e, true);
    assert(sat_i64(e - s.prev_e) == 0);
    assert(a.kd * 0 == 0) by {
        vstd::arithmetic::mul::lemma_mul_basics(a.kd as int);
    }
    vstd::arithmetic::div_mod::lemma_div_of0(dt_floored(dt));
}

/// The thrust that realises vertical acceleration `u` against gravity:
/// `mass * (u + GRAVITY_ACCEL)`.
pub open spec fn thrust_for(mass: i64, u: int) -> int {
    sat_i64((mass * sat_i64(u + GRAVITY_ACCEL)) / (SCALE as int))
}

/// The torque that realises angular acceleration `u` about an axis with
/// principal moment of inertia `inertia`.
pub open spec fn torque_for(inertia: i64, u: int) -> int {
    sat_i64((inertia * u) / (SCALE as int))
}

/// One controller tick.  With the engine off, the controllers are left
/// untouched and the command is exactly zero.  With the engine on, each
/// axis runs one PID step on this tick's error: altitude commands a thrust
/// that cancels gravity, the attitude axes command torques through the
/// vehicle's principal inertia, and the cruise axes command clamped
/// accelerations.
pub fn update_drone_forces(ctl: &mut FlightController, v: &VehicleState, dt: i64) -> (cmd:
    ForceCommand)
    requires
        old(ctl).wf(),
        v.wf(),
    ensures
        final(ctl).wf(),
        final(ctl).engine == old(ctl).engine,
        final(ctl).delay == old(ctl).delay,
        old(ctl).engine == EngineState::Off ==> cmd.is_zero() && *final(ctl) == *old(ctl),
        old(ctl).engine == EngineState::On ==> ({
            let rs = old(ctl).resumed;
            let e_y = lin_error(old(ctl).hover, v.pos_y);
            let h = seeded(sched_from(old(ctl).hover, v.pos_y), e_y, rs);
            let e_p = ang_error(old(ctl).pitch, v.pitch);
            let p = seeded(sched_from(old(ctl).pitch, angle_magnitude(v.pitch)), e_p, rs);
            let e_r = ang_error(old(ctl).roll, v.roll);
            let r = seeded(sched_from(old(ctl).roll, angle_magnitude(v.roll)), e_r, rs);
            let e_w = ang_error(old(ctl).yaw, v.yaw);
            let w = seeded(sched_from(old(ctl).yaw, angle_magnitude(v.yaw)), e_w, rs);
            let e_vx = lin_error(old(ctl).cruise_x, v.vel_x);
            let cx = seeded(old(ctl).cruise_x, e_vx, rs);
            let e_vz = lin_error(old(ctl).cruise_z, v.vel_z);
            let cz = seeded(old(ctl).cruise_z, e_vz, rs);
            &&& final(ctl).resumed == false
            &&& final(ctl).hover == pid_next(h, e_y, dt)
            &&& cmd.force_y as int == thrust_for(v.mass, pid_out(h, e_y, dt))
            &&& final(ctl).pitch == pid_next(p, e_p, dt)
            &&& cmd.torque_x as int == torque_for(v.inertia_x, pid_out(p, e_p, dt))
            &&& final(ctl).roll == pid_next(r, e_r, dt)
            &&& cmd.torque_z as int == torque_for(v.inertia_z, pid_out(r, e_r, dt))
            &&& final(ctl).yaw == pid_next(w, e_w, dt)
            &&& cmd.torque_y as int == torque_for(v.inertia_y, pid_out(w, e_w, dt))
            &&& final(ctl).cruise_x == pid_next(cx, e_vx, dt)
            &&& cmd.accel_x as int == pid_out(cx, e_vx, dt)
            &&& final(ctl).cruise_z == pid_next(cz, e_vz, dt)
            &&& cmd.accel_z as int == pid_out(cz, e_vz, dt)
        }),
        old(ctl).cruise_x.output_limit matches Some(l) ==> -(l as int) <= cmd.accel_x as int <= l
            as int,
        old(ctl).cruise_z.output_limit matches Some(l) ==> -(l as int) <= cmd.accel_z as int <= l
            as int,
{
    if !matches!(ctl.engine, EngineState::On) {
        return ForceCommand::zero();
    }
    let resume = ctl.resumed;
    ctl.resumed = false;

    // Altitude: gain-scheduled PID on vertical position; the thrust
    // cancels gravity and adds the commanded vertical acceleration.
    let e_y = sat_sub(ctl.hover.target, v.pos_y);
    if ctl.hover.gain_sched && ctl.hover.max_bound >= 1 {
        ctl.hover.schedule_kp(v.pos_y);
    }
    if resume {
        ctl.hover.prev_e = e_y;
    }
    let u_y = ctl.hover.step(e_y, dt);
    let lift = sat_add(u_y, GRAVITY_ACCEL);
    let force_y = mul_div(v.mass, lift, SCALE);

    // Pitch.
    let e_p = angle_error(ctl.pitch.target, v.pitch);
    if ctl.pitch.gain_sched && ctl.pitch.max_bound >= 1 {
        let m = abs_sat(v.pitch);
        ctl.pitch.schedule_kp(m);
    }
    if resume {
        ctl.pitch.prev_e = e_p;
    }
    let u_p = ctl.pitch.step(e_p, dt);
    let torque_x = mul_div(v.inertia_x, u_p, SCALE);

    // Roll.
    let e_r = angle_error(ctl.roll.target, v.roll);
    if ctl.roll.gain_sched && ctl.roll.max_bound >= 1 {
        let m = abs_sat(v.roll);
        ctl.roll.schedule_kp(m);
    }
    if resume {
        ctl.roll.prev_e = e_r;
    }
    let u_r = ctl.roll.step(e_r, dt);
    let torque_z = mul_div(v.inertia_z, u_r, SCALE);

    // Yaw.
    let e_w = angle_error(ctl.yaw.target, v.yaw);
    if ctl.yaw.gain_sched && ctl.yaw.max_bound >= 1 {
        let m = abs_sat(v.yaw);
        ctl.yaw.schedule_kp(m);
    }
    if resume {
        ctl.yaw.prev_e = e_w;
    }
    let u_w = ctl.yaw.step(e_w, dt);
    let torque_y = mul_div(v.inertia_y, u_w, SCALE);

    // Cruise: PID on each horizontal velocity component, output already
    // clamped to the acceleration limit.
    let e_vx = sat_sub(ctl.cruise_x.target, v.vel_x);
    if resume {
        ctl.cruise_x.prev_e = e_vx;
    }
    let accel_x = ctl.cruise_x.step(e_vx, dt);
    let e_vz = sat_sub(ctl.cruise_z.target, v.vel_z);
    if resume {
        ctl.cruise_z.prev_e = e_vz;
    }
    let accel_z = ctl.cruise_z.step(e_vz, dt);

    ForceCommand { force_y, torque_x, torque_y, torque_z, accel_x, accel_z }
}

/// Force the emitted command to zero while the engine is off, whatever the
/// controllers would have computed.
pub fn engine_off(ctl: &FlightController, cmd: &mut ForceCommand)
    ensures
        ctl.engine == EngineState::Off ==> final(cmd).is_zero(),
        ctl.engine == EngineState::On ==> *final(cmd) == *old(cmd),
{
    if matches!(ctl.engine, EngineState::Off) {
        *cmd = ForceCommand::zero();
    }
}

/// The altitude controller's velocity-command variant: one PID step whose
/// output is a target vertical velocity, low-pass filtered toward the
/// vehicle's actual vertical velocity by the smoothing factor `alpha` (a
/// fixed-point fraction of one, which the host derives from `dt` and its
/// actuator lag constant).  The returned velocity never overshoots past
/// the raw PID command.
pub fn vertical_velocity_command(
    hover: &mut PidAxis,
    pos_y: i64,
    vel_y: i64,
    alpha: i64,
    dt: i64,
) -> (v_cmd: i64)
    requires
        old(hover).wf(),
        0 <= alpha <= SCALE,
    ensures
        final(hover).wf(),
        *final(hover) == pid_next(
            sched_from(*old(hover), pos_y),
            lin_error(*old(hover), pos_y),
            dt,
        ),
        ({
            let u = pid_out(sched_from(*old(hover), pos_y), lin_error(*old(hover), pos_y), dt);
            &&& v_cmd as int == sat_i64(
                vel_y + sat_i64((alpha * sat_i64(u - vel_y)) / (SCALE as int)),
            )
            &&& (i64::MIN <= u - vel_y <= i64::MAX) ==> ((vel_y <= u ==> vel_y <= v_cmd <= u) && (
            u <= vel_y ==> u <= v_cmd <= vel_y))
        }),
{
    let e_y = sat_sub(hover.target, pos_y);
    if hover.gain_sched && hover.max_bound >= 1 {
        hover.schedule_kp(pos_y);
    }
    let u = hover.step(e_y, dt);
    smooth_toward(vel_y, u, alpha)
}

} // verus!
