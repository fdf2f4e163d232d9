//! The manual setpoint governor's building blocks.
//!
//! A repeating [`Delay`] timer rate-limits how often held commands may move
//! a setpoint; [`raise_target`]/[`lower_target`]/[`nudge_target`] apply one
//! governed increment, always clamped to the axis's admissible range; and
//! [`normalize_direction`] turns held movement commands into a unit-length
//! direction vector, so that two held orthogonal commands do not add up to
//! a faster diagonal.  The proof functions at the end state the governor's
//! laws: setpoints stay inside their bounds under any command sequence, and
//! holding one command for `n` completed intervals moves the setpoint by
//! exactly `n` times the axis rate until the bound is hit.

use crate::fixed::{clamp_i64, clamped, sat_add, sat_i64, sat_sub, SCALE};
use crate::pid::PidAxis;
use vstd::arithmetic::mul::*;
use vstd::prelude::*;

verus! {

/// A repeating timer: completes each time `interval` of accumulated time
/// has elapsed, then keeps the remainder.
#[derive(Clone, Copy, Debug)]
pub struct Delay {
    /// Time accumulated since the last completion, always below `interval`.
    pub elapsed: i64,
    /// The repeat interval, positive.
    pub interval: i64,
}

impl Delay {
    /// Well-formedness: a positive interval, with the accumulator inside it.
    pub open spec fn wf(self) -> bool {
        1 <= self.interval && 0 <= self.elapsed < self.interval
    }

    /// A fresh timer with the given repeat interval.
    pub fn new(interval: i64) -> (d: Delay)
        requires
            1 <= interval,
        ensures
            d == (Delay { elapsed: 0, interval }),
            d.wf(),
    {
        Delay { elapsed: 0, interval }
    }

    /// Advance by `dt`.  Returns whether the interval completed (at least
    /// once) during this tick; on completion the accumulator wraps to the
    /// remainder, so a long tick cannot bank more than one interval.
    pub fn tick(&mut self, dt: i64) -> (fired: bool)
        requires
            old(self).wf(),
            0 <= dt,
        ensures
            final(self).wf(),
            final(self).interval == old(self).interval,
            fired == (old(self).elapsed + dt >= old(self).interval),
            fired ==> final(self).elapsed == (old(self).elapsed + dt) % (
            old(self).interval as int),
            !fired ==> final(self).elapsed == old(self).elapsed + dt,
    {
        let total: i128 = self.elapsed as i128 + dt as i128;
        if total >= self.interval as i128 {
            proof {
                vstd::arithmetic::div_mod::lemma_mod_division_less_than_divisor(
                    total as int,
                    self.interval as int,
                );
            }
            let m = total.checked_rem_euclid(self.interval as i128).unwrap();
            self.elapsed = m as i64;
            true
        } else {
            self.elapsed = total as i64;
            false
        }
    }
}

/// One governed increment toward the upper bound:
/// `min(target + rate, hi)`, saturating.
pub open spec fn raise_step(t: int, rate: int, hi: int) -> int {
    let t2 = sat_i64(t + rate);
    if t2 > hi {
        hi
    } else {
        t2
    }
}

/// One governed decrement toward the lower bound:
/// `max(target - rate, lo)`, saturating.
pub open spec fn lower_step(t: int, rate: int, lo: int) -> int {
    let t2 = sat_i64(t - rate);
    if t2 < lo {
        lo
    } else {
        t2
    }
}

/// The axis with its setpoint replaced.
pub open spec fn with_target(a: PidAxis, t: int) -> PidAxis {
    PidAxis { target: t as i64, ..a }
}

/// The axis after one governed increment.
pub open spec fn raised(a: PidAxis) -> PidAxis {
    with_target(a, raise_step(a.target as int, a.rate as int, a.max_bound as int))
}

/// The axis after one governed decrement.
pub open spec fn lowered(a: PidAxis) -> PidAxis {
    with_target(a, lower_step(a.target as int, a.rate as int, a.min_bound as int))
}

/// The axis after a signed, clamped setpoint move.
pub open spec fn nudged(a: PidAxis, delta: int) -> PidAxis {
    with_target(a, clamped(sat_i64(a.target + delta), a.min_bound as int, a.max_bound as int))
}

/// The axis with its setpoint snapped to neutral.
pub open spec fn zeroed(a: PidAxis) -> PidAxis {
    with_target(a, clamped(0, a.min_bound as int, a.max_bound as int))
}

/// The axis re-armed at its lower bound.
pub open spec fn rearmed_low(a: PidAxis) -> PidAxis {
    with_target(a, a.min_bound as int)
}

/// Apply one governed increment to the axis's setpoint.
pub fn raise_target(a: &mut PidAxis)
    ensures
        *final(a) == raised(*old(a)),
        old(a).wf() ==> final(a).wf(),
{
    let t2 = sat_add(a.target, a.rate);
    if t2 > a.max_bound {
        a.target = a.max_bound;
    } else {
        a.target = t2;
    }
}

/// Apply one governed decrement to the axis's setpoint.
pub fn lower_target(a: &mut PidAxis)
    ensures
        *final(a) == lowered(*old(a)),
        old(a).wf() ==> final(a).wf(),
{
    let t2 = sat_sub(a.target, a.rate);
    if t2 < a.min_bound {
        a.target = a.min_bound;
    } else {
        a.target = t2;
    }
}

/// Move the setpoint by a signed amount, clamped into the axis's range
/// (used by the cruise axes, whose increment follows the direction vector).
pub fn nudge_target(a: &mut PidAxis, delta: i64)
    ensures
        *final(a) == nudged(*old(a), delta as int),
        old(a).wf() ==> final(a).wf(),
{
    let t2 = sat_add(a.target, delta);
    a.target = clamp_i64(t2, a.min_bound, a.max_bound);
}

/// Snap the setpoint to neutral (zero, clamped into the range).
pub fn zero_target(a: &mut PidAxis)
    ensures
        *final(a) == zeroed(*old(a)),
        old(a).wf() ==> final(a).wf(),
{
    a.target = clamp_i64(0, a.min_bound, a.max_bound);
}

/// Re-arm the setpoint at its lower bound (the altitude axis's safe
/// ground-level default when the engine turns on).
pub fn rearm_target_low(a: &mut PidAxis)
    ensures
        *final(a) == rearmed_low(*old(a)),
        old(a).wf() ==> final(a).wf(),
{
    a.target = a.min_bound;
}

/// The diagonal component of a unit direction vector: one over the square
/// root of two, in fixed point.
pub const DIAG_UNIT: i64 = 707_107;

/// Signed x direction from the held left/right movement commands.
pub open spec fn dir_x(left: bool, right: bool) -> int {
    (if right {
        1int
    } else {
        0int
    }) - (if left {
        1int
    } else {
        0int
    })
}

/// Signed z direction from the held forward/back movement commands.
pub open spec fn dir_z(forward: bool, back: bool) -> int {
    (if back {
        1int
    } else {
        0int
    }) - (if forward {
        1int
    } else {
        0int
    })
}

/// x component of the normalized direction vector.
pub open spec fn norm_x(forward: bool, back: bool, left: bool, right: bool) -> int {
    let dx = dir_x(left, right);
    let dz = dir_z(forward, back);
    if dx == 0 {
        0
    } else if dz == 0 {
        dx * (SCALE as int)
    } else {
        dx * (DIAG_UNIT as int)
    }
}

/// z component of the normalized direction vector.
pub open spec fn norm_z(forward: bool, back: bool, left: bool, right: bool) -> int {
    let dx = dir_x(left, right);
    let dz = dir_z(forward, back);
    if dz == 0 {
        0
    } else if dx == 0 {
        dz * (SCALE as int)
    } else {
        dz * (DIAG_UNIT as int)
    }
}

/// Turn the held movement commands into a direction vector of (fixed-point)
/// unit length: a single held command gives a full unit component, two
/// orthogonal held commands give the diagonal components, and opposed or
/// absent commands give zero.
pub fn normalize_direction(forward: bool, back: bool, left: bool, right: bool) -> (n: (i64, i64))
    ensures
        n.0 as int == norm_x(forward, back, left, right),
        n.1 as int == norm_z(forward, back, left, right),
{
    let dx: i64 = if right && !left {
        1
    } else if left && !right {
        -1
    } else {
        0
    };
    let dz: i64 = if back && !forward {
        1
    } else if forward && !back {
        -1
    } else {
        0
    };
    let nx: i64 = if dx == 0 {
        0
    } else if dz == 0 {
        if dx == 1 {
            SCALE
        } else {
            -SCALE
        }
    } else {
        if dx == 1 {
            DIAG_UNIT
        } else {
            -DIAG_UNIT
        }
    };
    let nz: i64 = if dz == 0 {
        0
    } else if dx == 0 {
        if dz == 1 {
            SCALE
        } else {
            -SCALE
        }
    } else {
        if dz == 1 {
            DIAG_UNIT
        } else {
            -DIAG_UNIT
        }
    };
    (nx, nz)
}

/// Direction normalization law: whenever any movement command takes
/// effect, the emitted direction vector has unit length to within one
/// fixed-point step of one squared — in particular, two held orthogonal
/// commands do not produce a vector of length square-root-of-two.
pub proof fn lemma_direction_unit_length(forward: bool, back: bool, left: bool, right: bool)
    requires
        dir_x(left, right) != 0 || dir_z(forward, back) != 0,
    ensures
        ({
            let nx = norm_x(forward, back, left, right);
            let nz = norm_z(forward, back, left, right);
            (SCALE as int) * (SCALE as int) - SCALE <= nx * nx + nz * nz <= (SCALE as int) * (
            SCALE as int) + SCALE
        }),
{
    let dx = dir_x(left, right);
    let dz = dir_z(forward, back);
    let nx = norm_x(forward, back, left, right);
    let nz = norm_z(forward, back, left, right);
    assert(-1 <= dx <= 1 && -1 <= dz <= 1);
    if dx == 0 || dz == 0 {
        assert(nx * nx + nz * nz == (SCALE as int) * (SCALE as int)) by (nonlinear_arith)
            requires
                (dx == 0 && (nx == 0 && (nz == dz * (SCALE as int)) && (dz == 1 || dz == -1))) || (
                dz == 0 && (nz == 0 && (nx == dx * (SCALE as int)) && (dx == 1 || dx == -1))),
        ;
    } else {
        assert(nx * nx + nz * nz == 2 * (DIAG_UNIT as int) * (DIAG_UNIT as int))
            by (nonlinear_arith)
            requires
                (nx == dx * (DIAG_UNIT as int) && (dx == 1 || dx == -1)) && (nz == dz * (
                DIAG_UNIT as int) && (dz == 1 || dz == -1)),
        ;
    }
}

/// `n` governed increments, one per completed governor interval.
pub open spec fn raised_n(t: int, rate: int, hi: int, n: nat) -> int
    decreases n,
{
    if n == 0 {
        t
    } else {
        raise_step(raised_n(t, rate, hi, (n - 1) as nat), rate, hi)
    }
}

/// Rate-limiting law: holding an increment command for `n` completed
/// governor intervals moves the setpoint by exactly `n * rate`, clamped at
/// the upper bound.
pub proof fn lemma_rate_limited_ascent(t: int, rate: int, hi: int, n: nat)
    requires
        i64::MIN <= t <= hi <= i64::MAX,
        0 <= rate,
        t + n * rate <= i64::MAX,
    ensures
        raised_n(t, rate, hi, n) == if t + n * rate <= hi {
            t + n * rate
        } else {
            hi
        },
    decreases n,
{
    if n > 0 {
        let m = (n - 1) as nat;
        lemma_mul_nonnegative(m as int, rate);
        lemma_mul_inequality(m as int, n as int, rate);
        assert(n * rate == m * rate + rate) by {
            lemma_mul_is_distributive_add_other_way(rate, m as int, 1);
            lemma_mul_basics(rate);
        }
        lemma_rate_limited_ascent(t, rate, hi, m);
    } else {
        lemma_mul_basics(rate);
        assert(n * rate == 0) by {
            lemma_mul_is_commutative(n as int, rate);
        }
    }
}

/// One governed step, either direction.
pub open spec fn gov_step(t: int, rate: int, lo: int, hi: int, up: bool) -> int {
    if up {
        raise_step(t, rate, hi)
    } else {
        lower_step(t, rate, lo)
    }
}

/// A whole run of governed steps, in order.
pub open spec fn gov_run(t: int, rate: int, lo: int, hi: int, cmds: Seq<bool>) -> int
    decreases cmds.len(),
{
    if cmds.len() == 0 {
        t
    } else {
        gov_run(gov_step(t, rate, lo, hi, cmds[0]), rate, lo, hi, cmds.drop_first())
    }
}

/// Setpoint-bounds law: starting inside `[lo, hi]`, the setpoint is still
/// inside `[lo, hi]` after any sequence of governed increments and
/// decrements.
pub proof fn lemma_setpoint_bounds(t: int, rate: int, lo: int, hi: int, cmds: Seq<bool>)
    requires
        i64::MIN <= lo <= t <= hi <= i64::MAX,
        0 <= rate,
    ensures
        lo <= gov_run(t, rate, lo, hi, cmds) <= hi,
    decreases cmds.len(),
{
    if cmds.len() > 0 {
        let t2 = gov_step(t, rate, lo, hi, cmds[0]);
        assert(lo <= t2 <= hi);
        lemma_setpoint_bounds(t2, rate, lo, hi, cmds.drop_first());
    }
}

} // verus!
