//! The PID primitive: one instance per controlled axis.
//!
//! A [`PidAxis`] carries the gains, the accumulated integral error, the
//! previous error for the derivative term, the setpoint together with its
//! admissible range and per-governor-tick rate, and an optional symmetric
//! clamp on the raw output.  [`PidAxis::step`] is the whole computation for
//! one tick; its contract pins the updated state and the returned command
//! down to exact fixed-point formulas.

use crate::fixed::{
    clamp_i64, clamped, mul_div, sat_add, sat_i64, sat_sub, DT_EPS, SCALE,
};
use vstd::arithmetic::div_mod::*;
use vstd::arithmetic::mul::*;
use vstd::prelude::*;

verus! {

/// State of one single-axis PID controller, in fixed point.
#[derive(Clone, Copy, Debug)]
pub struct PidAxis {
    /// Proportional gain; recomputed each tick when `gain_sched` is set.
    pub kp: i64,
    /// Lower end of the scheduled proportional gain.
    pub min_kp: i64,
    /// Upper end of the scheduled proportional gain.
    pub max_kp: i64,
    /// Integral gain.
    pub ki: i64,
    /// Derivative gain.
    pub kd: i64,
    /// Error seen on the previous tick, for the derivative term.
    pub prev_e: i64,
    /// Accumulated error times elapsed time; deliberately not clamped
    /// below the saturation range (no anti-windup, as in the modelled
    /// vehicle).
    pub integral_e: i64,
    /// The setpoint.
    pub target: i64,
    /// Change applied to `target` per completed governor interval.
    pub rate: i64,
    /// Smallest admissible `target`.
    pub min_bound: i64,
    /// Largest admissible `target`.
    pub max_bound: i64,
    /// Symmetric clamp on the raw output, if this axis has one.
    pub output_limit: Option<i64>,
    /// Whether the proportional gain is rescheduled from the measured
    /// value each tick.
    pub gain_sched: bool,
}

impl PidAxis {
    /// Well-formedness: gains are non-negative, the setpoint range is
    /// non-empty and contains the setpoint, and the output clamp (if any)
    /// is non-negative.
    pub open spec fn wf(self) -> bool {
        &&& 0 <= self.kp
        &&& 0 <= self.ki
        &&& 0 <= self.kd
        &&& 0 <= self.min_kp <= self.max_kp
        &&& 0 <= self.rate
        &&& self.min_bound <= self.target <= self.max_bound
        &&& match self.output_limit {
            Some(l) => 0 <= l,
            None => true,
        }
    }
}

/// Elapsed time floored to [`DT_EPS`], the defence against a zero or
/// negative `dt` reaching a division.
pub open spec fn dt_floored(dt: i64) -> int {
    if dt < DT_EPS {
        DT_EPS as int
    } else {
        dt as int
    }
}

/// The integral accumulator after one step: `integral_e + e * dt`.
pub open spec fn next_integral(a: PidAxis, e: i64, dt: i64) -> int {
    sat_i64(a.integral_e + sat_i64((e * dt_floored(dt)) / (SCALE as int)))
}

/// The raw (unclamped) PID output
/// `kp*e + ki*integral_e' + kd*(e - prev_e)/dt`,
/// where `integral_e'` is the freshly updated accumulator and each term
/// saturates at the `i64` range.
pub open spec fn pid_raw(a: PidAxis, e: i64, dt: i64) -> int {
    sat_i64((a.kp * e) / (SCALE as int)) + sat_i64(
        (a.ki * next_integral(a, e, dt)) / (SCALE as int),
    ) + sat_i64((a.kd * sat_i64(e - a.prev_e)) / dt_floored(dt))
}

/// The emitted command: the raw output clamped to
/// `[-output_limit, output_limit]` when a limit is configured.
pub open spec fn pid_out(a: PidAxis, e: i64, dt: i64) -> int {
    match a.output_limit {
        Some(l) => clamped(pid_raw(a, e, dt), -(l as int), l as int),
        None => sat_i64(pid_raw(a, e, dt)),
    }
}

/// The axis state after one step: the accumulator advanced and the error
/// remembered for the next derivative term.
pub open spec fn pid_next(a: PidAxis, e: i64, dt: i64) -> PidAxis {
    PidAxis { integral_e: next_integral(a, e, dt) as i64, prev_e: e, ..a }
}

/// The axis with its proportional gain rescheduled from a measured value:
/// `kp = min_kp + (max_kp - min_kp) * clamp(measured / max_bound, 0, 1)`.
pub open spec fn scheduled(a: PidAxis, measured: i64) -> PidAxis {
    let norm = clamped(
        sat_i64((measured * SCALE) / (a.max_bound as int)),
        0,
        SCALE as int,
    );
    let span = sat_i64(a.max_kp - a.min_kp);
    PidAxis { kp: sat_i64(a.min_kp + sat_i64((span * norm) / (SCALE as int))) as i64, ..a }
}

impl PidAxis {
    /// One PID step for error `e` over elapsed time `dt`: accumulates the
    /// integral, forms the three terms, remembers `e`, and clamps the
    /// output when this axis has a limit.
    pub fn step(&mut self, e: i64, dt: i64) -> (u: i64)
        requires
            old(self).wf(),
        ensures
            *final(self) == pid_next(*old(self), e, dt),
            final(self).wf(),
            u as int == pid_out(*old(self), e, dt),
            old(self).output_limit matches Some(l) ==> -(l as int) <= u as int <= l as int,
    {
        let dtf = if dt < DT_EPS {
            DT_EPS
        } else {
            dt
        };
        let di = mul_div(e, dtf, SCALE);
        self.integral_e = sat_add(self.integral_e, di);
        let t1 = mul_div(self.kp, e, SCALE);
        let t2 = mul_div(self.ki, self.integral_e, SCALE);
        let de = sat_sub(e, self.prev_e);
        let t3 = mul_div(self.kd, de, dtf);
        self.prev_e = e;
        let raw: i128 = t1 as i128 + t2 as i128 + t3 as i128;
        match self.output_limit {
            Some(l) => {
                if raw < -(l as i128) {
                    -l
                } else if raw > l as i128 {
                    l
                } else {
                    raw as i64
                }
            },
            None => crate::fixed::sat_narrow(raw),
        }
    }

    /// Gain scheduling: recompute `kp` between `min_kp` and `max_kp` from
    /// the measured value normalized against `max_bound`.
    pub fn schedule_kp(&mut self, measured: i64)
        requires
            old(self).wf(),
            1 <= old(self).max_bound,
        ensures
            *final(self) == scheduled(*old(self), measured),
            final(self).wf(),
            old(self).min_kp <= final(self).kp <= old(self).max_kp,
    {
        let norm = clamp_i64(mul_div(measured, SCALE, self.max_bound), 0, SCALE);
        let span = sat_sub(self.max_kp, self.min_kp);
        let t = mul_div(span, norm, SCALE);
        proof {
            let s = SCALE as int;
            lemma_mul_nonnegative(span as int, norm as int);
            lemma_div_pos_is_pos(span * norm, s);
            lemma_mul_inequality(norm as int, s, span as int);
            assert(span * norm <= span * s) by {
                lemma_mul_is_commutative(norm as int, span as int);
                lemma_mul_is_commutative(s, span as int);
            }
            lemma_div_is_ordered(span * norm, span * s, s);
            assert((span * s) / s == span as int) by {
                lemma_div_multiples_vanish(span as int, s);
                lemma_mul_is_commutative(s, span as int);
            }
        }
        self.kp = sat_add(self.min_kp, t);
    }
}

/// First-order low-pass: move `current` toward `target` by the smoothing
/// factor `alpha` (a fixed-point fraction of one).  When the gap fits in
/// the fixed-point range, the result never leaves the interval between
/// `current` and `target`.
pub fn smooth_toward(current: i64, target: i64, alpha: i64) -> (r: i64)
    requires
        0 <= alpha <= SCALE,
    ensures
        r as int == sat_i64(
            current + sat_i64((alpha * sat_i64(target - current)) / (SCALE as int)),
        ),
        i64::MIN <= target - current <= i64::MAX ==> {
            &&& (current <= target ==> current <= r <= target)
            &&& (target <= current ==> target <= r <= current)
        },
{
    let diff = sat_sub(target, current);
    let t = mul_div(alpha, diff, SCALE);
    proof {
        let s = SCALE as int;
        if i64::MIN <= target - current <= i64::MAX {
            if diff >= 0 {
                lemma_mul_nonnegative(alpha as int, diff as int);
                lemma_div_pos_is_pos(alpha * diff, s);
                lemma_mul_inequality(alpha as int, s, diff as int);
                assert(alpha * diff <= s * diff) by {
                    lemma_mul_is_commutative(alpha as int, diff as int);
                    lemma_mul_is_commutative(s, diff as int);
                }
                lemma_div_is_ordered(alpha * diff, s * diff, s);
                lemma_div_multiples_vanish(diff as int, s);
            } else {
                lemma_mul_inequality(alpha as int, s, -(diff as int));
                lemma_mul_unary_negation(alpha as int, diff as int);
                lemma_mul_unary_negation(s, diff as int);
                lemma_div_is_ordered(s * diff, alpha * diff, s);
                lemma_div_multiples_vanish(diff as int, s);
                lemma_div_is_ordered(alpha * diff, 0, s);
                lemma_div_of0(s);
            }
        }
    }
    sat_add(current, t)
}

} // verus!
