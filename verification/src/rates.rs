//! Per-frame factor derivation for diffusion and decay.
//!
//! An authored rate `r` in `[0, 1)` is the fraction of signal lost (or
//! diffused away) per unit of time. Before upload the rate is converted into
//! a frame-local multiplicative factor `f = 1 - (1 - r)^dt`, so that the
//! visible speed of decay does not depend on the frame rate. Rates, factors
//! and every other unit fraction in this crate are fixed-point values scaled
//! by [`RATE_ONE`].

use vstd::prelude::*;

verus! {

/// Fixed-point one: the stored integer `n` stands for the fraction
/// `n / RATE_ONE`.
pub const RATE_ONE: u32 = 1_000_000;

/// How much of a unit signal remains after `dt` whole ticks when the fraction
/// `keep / RATE_ONE` of it survives each tick, rounding down at every step.
/// This is `(keep / RATE_ONE)^dt`, scaled by `RATE_ONE`.
pub open spec fn retained_after(keep: u32, dt: nat) -> int
    decreases dt,
{
    if dt == 0 {
        RATE_ONE as int
    } else {
        retained_after(keep, (dt - 1) as nat) * keep / (RATE_ONE as int)
    }
}

/// The per-frame factor for an authored rate `rate / RATE_ONE` over `dt`
/// ticks: the fraction of the signal lost, `1 - (1 - rate)^dt` in fixed
/// point.
pub open spec fn frame_factor(rate: u32, dt: nat) -> int
    recommends
        rate < RATE_ONE,
{
    RATE_ONE - retained_after((RATE_ONE - rate) as u32, dt)
}

/// The retained fraction stays within `[0, RATE_ONE]`.
pub proof fn lemma_retained_bounds(keep: u32, dt: nat)
    requires
        keep <= RATE_ONE,
    ensures
        0 <= retained_after(keep, dt) <= RATE_ONE,
    decreases dt,
{
    if dt > 0 {
        lemma_retained_bounds(keep, (dt - 1) as nat);
        let p = retained_after(keep, (dt - 1) as nat);
        assert(0 <= p * keep / (RATE_ONE as int) <= RATE_ONE) by (nonlinear_arith)
            requires
                0 <= p <= RATE_ONE,
                0 <= keep <= RATE_ONE,
        ;
    }
}

/// One tick with a strict survival fraction strictly shrinks a positive
/// retained amount.
proof fn lemma_retained_step_strict(keep: u32, p: int)
    requires
        keep < RATE_ONE,
        0 < p <= RATE_ONE,
    ensures
        p * keep / (RATE_ONE as int) < p,
{
    assert(p * keep / (RATE_ONE as int) < p) by (nonlinear_arith)
        requires
            0 <= keep < RATE_ONE,
            0 < p <= RATE_ONE,
    ;
}

/// Law: the per-frame factor never shrinks as the elapsed time grows, and at
/// `dt = 0` it is zero.
pub proof fn lemma_factor_monotonic(rate: u32, dt1: nat, dt2: nat)
    requires
        rate < RATE_ONE,
        dt1 <= dt2,
    ensures
        frame_factor(rate, dt1) <= frame_factor(rate, dt2),
        frame_factor(rate, 0) == 0,
    decreases dt2,
{
    let keep = (RATE_ONE - rate) as u32;
    lemma_retained_bounds(keep, dt2);
    if dt1 < dt2 {
        lemma_factor_monotonic(rate, dt1, (dt2 - 1) as nat);
        let p = retained_after(keep, (dt2 - 1) as nat);
        lemma_retained_bounds(keep, (dt2 - 1) as nat);
        assert(p * keep / (RATE_ONE as int) <= p) by (nonlinear_arith)
            requires
                0 <= p <= RATE_ONE,
                0 <= keep <= RATE_ONE,
        ;
    }
}

/// Law: for a positive rate the per-frame factor strictly grows with time,
/// as long as any signal at all is still retained at the later instant (with
/// a zero rate, or once rounding has exhausted the retained amount, the
/// factor stalls).
pub proof fn lemma_factor_strictly_monotonic(rate: u32, dt1: nat, dt2: nat)
    requires
        0 < rate < RATE_ONE,
        dt1 < dt2,
        retained_after((RATE_ONE - rate) as u32, dt2) > 0,
    ensures
        frame_factor(rate, dt1) < frame_factor(rate, dt2),
    decreases dt2,
{
    let keep = (RATE_ONE - rate) as u32;
    let prev = retained_after(keep, (dt2 - 1) as nat);
    lemma_retained_bounds(keep, (dt2 - 1) as nat);
    if prev <= 0 {
        assert(retained_after(keep, dt2) == prev * keep / (RATE_ONE as int));
        assert(prev == 0);
        assert(retained_after(keep, dt2) == 0);
    }
    lemma_retained_step_strict(keep, prev);
    if dt1 < dt2 - 1 {
        lemma_factor_strictly_monotonic(rate, dt1, (dt2 - 1) as nat);
    }
}

/// Convert an authored rate into the per-frame factor for a frame of `dt`
/// ticks, in fixed point.
pub fn per_frame_factor(rate: u32, dt: u32) -> (f: u32)
    requires
        rate < RATE_ONE,
    ensures
        f == frame_factor(rate, dt as nat),
        f <= RATE_ONE,
{
    let keep: u32 = RATE_ONE - rate;
    let mut p: u32 = RATE_ONE;
    let mut i: u32 = 0;
    while i < dt
        invariant
            i <= dt,
            keep <= RATE_ONE,
            p == retained_after(keep, i as nat),
            p <= RATE_ONE,
        decreases dt - i,
    {
        assert((p as u64) * (keep as u64) <= 1_000_000_000_000u64) by (nonlinear_arith)
            requires
                p <= 1_000_000u32,
                keep <= 1_000_000u32,
        ;
        let next: u64 = (p as u64) * (keep as u64) / (RATE_ONE as u64);
        proof {
            lemma_retained_bounds(keep, (i + 1) as nat);
        }
        p = next as u32;
        i = i + 1;
    }
    proof {
        lemma_retained_bounds(keep, dt as nat);
    }
    RATE_ONE - p
}

} // verus!
