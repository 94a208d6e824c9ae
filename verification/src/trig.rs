//! Integer angles and trigonometry.
//!
//! Headings and sensor angles are held in binary angle units: a full turn
//! is [`ANGLE_FULL`] units, so wrap-around is plain modular arithmetic.
//! Sine and cosine are computed with a rational approximation over the
//! half-turn (exact at 0, a quarter turn and a half turn), returning values
//! scaled by [`SIN_ONE`]. The contracts pin the computed value exactly and
//! bound it by one, which is what keeps seeded and moving agents inside the
//! field.

use vstd::prelude::*;

verus! {

/// Angle units in a full turn.
pub const ANGLE_FULL: u32 = 65536;

/// Angle units in a half turn.
pub const ANGLE_HALF: u32 = 32768;

/// Angle units in a quarter turn.
pub const ANGLE_QUARTER: u32 = 16384;

/// Fixed-point one for sine and cosine values.
pub const SIN_ONE: i32 = 65536;

/// The rational half-turn sine approximation, for `a` in `[0, ANGLE_HALF]`:
/// `16 a (H - a) / (5 H^2 - 4 a (H - a))`, scaled by [`SIN_ONE`].
pub open spec fn sin_half_spec(a: int) -> int {
    16 * a * (32768 - a) * 65536 / (5 * 32768 * 32768 - 4 * a * (32768 - a))
}

/// Sine over the whole turn: the second half mirrors the first with
/// negative sign.
pub open spec fn sin_spec(a: int) -> int {
    if a <= 32768 {
        sin_half_spec(a)
    } else {
        -sin_half_spec(a - 32768)
    }
}

/// Cosine as the quarter-turn shift of sine.
pub open spec fn cos_spec(a: int) -> int {
    sin_spec((a + 16384) % 65536)
}

/// The half-turn sine value lies in `[0, SIN_ONE]`.
pub proof fn lemma_sin_half_bounds(a: int)
    by (nonlinear_arith)
    requires
        0 <= a <= 32768,
    ensures
        0 <= sin_half_spec(a) <= 65536,
{
}

/// The sine value lies in `[-SIN_ONE, SIN_ONE]`.
pub proof fn lemma_sin_bounds(a: int)
    requires
        0 <= a < 65536,
    ensures
        -65536 <= sin_spec(a) <= 65536,
{
    if a <= 32768 {
        lemma_sin_half_bounds(a);
    } else {
        lemma_sin_half_bounds(a - 32768);
    }
}

/// The cosine value lies in `[-SIN_ONE, SIN_ONE]`.
pub proof fn lemma_cos_bounds(a: int)
    requires
        0 <= a < 65536,
    ensures
        -65536 <= cos_spec(a) <= 65536,
{
    vstd::arithmetic::div_mod::lemma_mod_bound(a + 16384, 65536);
    lemma_sin_bounds((a + 16384) % 65536);
}

/// Sine of an angle, in [`SIN_ONE`] fixed point.
pub fn sin_fp(a: u32) -> (r: i32)
    requires
        a < ANGLE_FULL,
    ensures
        r == sin_spec(a as int),
        -SIN_ONE <= r <= SIN_ONE,
{
    if a <= ANGLE_HALF {
        sin_half(a)
    } else {
        let m = sin_half(a - ANGLE_HALF);
        proof {
            lemma_sin_half_bounds(a - ANGLE_HALF);
        }
        -m
    }
}

/// Cosine of an angle, in [`SIN_ONE`] fixed point.
pub fn cos_fp(a: u32) -> (r: i32)
    requires
        a < ANGLE_FULL,
    ensures
        r == cos_spec(a as int),
        -SIN_ONE <= r <= SIN_ONE,
{
    let shifted: u32 = (a + ANGLE_QUARTER) % ANGLE_FULL;
    sin_fp(shifted)
}

/// Sine over the first half turn.
fn sin_half(a: u32) -> (r: i32)
    requires
        a <= ANGLE_HALF,
    ensures
        r == sin_half_spec(a as int),
        0 <= r <= SIN_ONE,
{
    proof {
        assert((a as u64) * ((32768 - a) as u64) <= 32768u64 * 32768u64) by (nonlinear_arith)
            requires
                a <= 32768,
        ;
    }
    let prod: u64 = (a as u64) * ((ANGLE_HALF - a) as u64);
    let num: u64 = 16 * prod * (SIN_ONE as u64);
    let den: u64 = 5 * (ANGLE_HALF as u64) * (ANGLE_HALF as u64) - 4 * prod;
    let r: u64 = num / den;
    proof {
        lemma_sin_half_bounds(a as int);
        assert(num as int == 16 * (a as int) * (32768 - a as int) * 65536) by (nonlinear_arith)
            requires
                prod == (a as int) * (32768 - a as int),
                num == 16 * prod * 65536,
                0 <= prod <= 32768 * 32768,
        ;
        assert(den as int == 5 * 32768 * 32768 - 4 * (a as int) * (32768 - a as int))
            by (nonlinear_arith)
            requires
                prod == (a as int) * (32768 - a as int),
                den == 5 * 32768 * 32768 - 4 * prod,
                0 <= prod <= 32768 * 32768,
        ;
    }
    r as i32
}

/// Integer square root of values up to one trillion.
pub fn isqrt(n: u64) -> (r: u32)
    requires
        n <= 1_000_000_000_000,
    ensures
        (r as int) * (r as int) <= n,
        n < (r as int + 1) * (r as int + 1),
        r <= 1_000_000,
{
    let mut lo: u64 = 0;
    let mut hi: u64 = 1_000_001;
    proof {
        assert(1_000_001int * 1_000_001int > 1_000_000_000_000int) by (nonlinear_arith);
    }
    while hi - lo > 1
        invariant
            lo < hi,
            hi <= 1_000_001,
            (lo as int) * (lo as int) <= n,
            n < (hi as int) * (hi as int),
            n <= 1_000_000_000_000,
        decreases hi - lo,
    {
        let mid: u64 = lo + (hi - lo) / 2;
        proof {
            assert(mid * mid <= 1_000_001u64 * 1_000_001u64) by (nonlinear_arith)
                requires
                    mid <= 1_000_001,
            ;
        }
        if mid * mid <= n {
            lo = mid;
        } else {
            hi = mid;
        }
    }
    lo as u32
}

} // verus!
