//! Wraparound-aware angle arithmetic.
//!
//! Angles are fixed-point radians ([`crate::fixed::SCALE`] steps per
//! radian).  A full turn is the even constant [`FULL_TURN`], twice
//! [`HALF_TURN`]; the shortest signed angular distance between two angles is
//! always confined to the half-open interval `(-HALF_TURN, HALF_TURN]`, so
//! a target just across the wrap point is reached the short way round.

use vstd::arithmetic::div_mod::*;
use vstd::arithmetic::mul::*;
use vstd::prelude::*;

verus! {

/// Half a turn: pi radians in fixed point.
pub const HALF_TURN: i64 = 3_141_593;

/// A full turn, exactly twice [`HALF_TURN`].
pub const FULL_TURN: i64 = 6_283_186;

/// The unique representative of `x` in `(-HALF_TURN, HALF_TURN]` modulo
/// [`FULL_TURN`].
pub open spec fn wrapped(x: int) -> int {
    let m = (x + HALF_TURN) % (FULL_TURN as int);
    if m == 0 {
        HALF_TURN as int
    } else {
        m - HALF_TURN
    }
}

/// The wrapped angle lies in `(-HALF_TURN, HALF_TURN]` and differs from the
/// raw angle by a whole number of turns.
pub proof fn lemma_wrapped_is_congruent(x: int)
    ensures
        -HALF_TURN < wrapped(x) <= HALF_TURN,
        (x - wrapped(x)) % (FULL_TURN as int) == 0,
{
    let f = FULL_TURN as int;
    let s = x + HALF_TURN;
    let m = s % f;
    lemma_mod_division_less_than_divisor(s, f);
    lemma_fundamental_div_mod(s, f);
    let q = s / f;
    assert(s - m == f * q);
    if m == 0 {
        // x - HALF_TURN == f * q - FULL_TURN == f * (q - 1)
        assert(x - HALF_TURN == f * (q - 1)) by {
            lemma_mul_is_distributive_sub(f, q, 1);
        }
        assert((f * (q - 1)) % f == 0) by {
            lemma_mod_multiples_basic(q - 1, f);
            lemma_mul_is_commutative(f, q - 1);
        }
    } else {
        // x - (m - HALF_TURN) == s - m == f * q
        assert((f * q) % f == 0) by {
            lemma_mod_multiples_basic(q, f);
            lemma_mul_is_commutative(f, q);
        }
    }
}

/// Shortest signed angular error `target - current`, wrapped into
/// `(-HALF_TURN, HALF_TURN]`.  The boundary case (an error of exactly half
/// a turn) consistently comes out as `+HALF_TURN`.
pub fn angle_error(target: i64, current: i64) -> (e: i64)
    ensures
        e as int == wrapped(target - current),
        -HALF_TURN < e <= HALF_TURN,
        (target - current - e) % (FULL_TURN as int) == 0,
{
    proof {
        lemma_wrapped_is_congruent(target - current);
    }
    let diff: i128 = target as i128 - current as i128;
    let s: i128 = diff + HALF_TURN as i128;
    proof {
        lemma_mod_division_less_than_divisor(s as int, FULL_TURN as int);
    }
    let m: i128 = s.checked_rem_euclid(FULL_TURN as i128).unwrap();
    if m == 0 {
        HALF_TURN
    } else {
        (m - HALF_TURN as i128) as i64
    }
}

} // verus!
