//! Angle normalization for the corotational beam formulation, over
//! fixed-point angles measured in binary fractions of a full turn: a full
//! turn has `ANGLE_FULL_TURN` units, so normalization is exact.

use vstd::arithmetic::div_mod::{lemma_fundamental_div_mod, lemma_fundamental_div_mod_converse};
use vstd::prelude::*;

verus! {

/// The number of angle units of a full turn.
pub const ANGLE_FULL_TURN: i64 = 0x1_0000_0000;

/// The number of angle units of a half turn.
pub const ANGLE_HALF_TURN: i64 = 0x8000_0000;

/// Normalizes an angle to the range `(-half turn, half turn]` by adding or
/// subtracting full turns: the result is the unique angle in that range
/// that differs from the input by a multiple of a full turn.
pub fn normalize_angle(angle: i64) -> (r: i64)
    requires
        angle > i64::MIN,
    ensures
        -ANGLE_HALF_TURN < r <= ANGLE_HALF_TURN,
        (angle - r) % (ANGLE_FULL_TURN as int) == 0,
{
    // Reduce the angle to the range [0, full turn) by a modulo operation.
    let reduced: i64 = rem_full_turn(angle);
    proof {
        lemma_fundamental_div_mod(angle as int, ANGLE_FULL_TURN as int);
        lemma_mod_multiple(angle as int, reduced as int, ANGLE_FULL_TURN as int);
    }
    // If the result is larger than a half turn, subtract a full turn to
    // get a range of (-half turn, half turn].
    if reduced > ANGLE_HALF_TURN {
        reduced - ANGLE_FULL_TURN
    } else {
        reduced
    }
}

/// If `b` is `a` up to a multiple of the modulus, then `a - b` is a
/// multiple of the modulus.
proof fn lemma_mod_multiple(a: int, b: int, m: int)
    requires
        m > 0,
        (a - b) % m == 0,
    ensures
        forall|k: int| (a - (b + #[trigger] (k * m))) % m == 0,
{
    assert forall|k: int| (a - (b + #[trigger] (k * m))) % m == 0 by {
        let q: int = (a - b) / m;
        lemma_fundamental_div_mod(a - b, m);
        assert(a - b == m * q);
        assert(a - (b + k * m) == (q - k) * m) by (nonlinear_arith)
            requires
                a - b == m * q,
        ;
        assert(((q - k) * m) % m == 0) by {
            lemma_fundamental_div_mod_converse((q - k) * m, m, q - k, 0);
        }
    }
}

/// The remainder of an angle by a full turn, in `[0, full turn)`.
fn rem_full_turn(angle: i64) -> (r: i64)
    requires
        angle > i64::MIN,
    ensures
        0 <= r < ANGLE_FULL_TURN,
        r == (angle as int) % (ANGLE_FULL_TURN as int),
        (angle - r) % (ANGLE_FULL_TURN as int) == 0,
{
    let m: i64 = ANGLE_FULL_TURN;
    let r: i64 = if angle >= 0 {
        angle % m
    } else {
        let t: i64 = (-angle) % m;
        proof {
            lemma_fundamental_div_mod((-angle) as int, m as int);
            let q: int = (-angle) as int / (m as int);
            if t == 0 {
                assert((-q) * m == -(q * m)) by (nonlinear_arith);
                lemma_fundamental_div_mod_converse(angle as int, m as int, -q, 0);
            } else {
                assert((-q - 1) * m == -(q * m) - m) by (nonlinear_arith);
                lemma_fundamental_div_mod_converse(angle as int, m as int, -q - 1, m - t);
            }
        }
        if t == 0 {
            0
        } else {
            m - t
        }
    };
    proof {
        lemma_fundamental_div_mod(angle as int, m as int);
        let q: int = (angle as int) / (m as int);
        assert(angle - r == m * q);
        assert((m * q) % (m as int) == 0) by {
            lemma_fundamental_div_mod_converse(m * q, m as int, q, 0);
            assert(m * q == q * m) by (nonlinear_arith);
        }
    }
    r
}

} // verus!
