//! Easing curves in fixed-point arithmetic.
//!
//! A curve maps a normalized time `t` in `[0, SCALE]` to an eased progress
//! value, also on the `SCALE` grid. Every curve starts at exactly `0` and
//! ends at exactly `SCALE`, which is what lets a tween land on its target
//! value with no residual drift. The back-in curve is allowed to leave
//! `[0, SCALE]` on the way (it first pulls backward), but stays within
//! `[-SCALE, SCALE]`.

use vstd::prelude::*;

verus! {

/// Fixed-point unit: one whole of normalized time or progress.
pub const SCALE: i64 = 1000;

/// The easing curves used by the show.
#[derive(Clone, Copy, Debug, PartialEq, Eq, Structural)]
pub enum Easing {
    /// Constant speed.
    Linear,
    /// Fast start, decelerating arrival: `1 - (1-t)^3`.
    CubicOut,
    /// Slow start and arrival, an S-shaped curve on the fixed-point grid.
    SineInOut,
    /// Pulls backward below `0` before accelerating to `1`.
    BackIn,
}

/// Eased progress at normalized time `t` on the `SCALE` grid.
pub open spec fn ease_at(c: Easing, t: int) -> int
    recommends
        0 <= t <= 1000,
{
    match c {
        Easing::Linear => t,
        Easing::CubicOut => 1000 - (1000 - t) * (1000 - t) * (1000 - t) / 1_000_000,
        Easing::SineInOut => t * t * (3000 - 2 * t) / 1_000_000,
        Easing::BackIn => if 2702 * t >= 1_702_000 {
            t * t * (2702 * t - 1_702_000) / 1_000_000_000
        } else {
            -(t * t * (1_702_000 - 2702 * t) / 1_000_000_000)
        },
    }
}

/// Every curve starts at exactly 0 and ends at exactly `SCALE`.
pub proof fn lemma_ease_endpoints(c: Easing)
    ensures
        ease_at(c, 0) == 0,
        ease_at(c, 1000) == 1000,
{
    match c {
        Easing::Linear => {},
        Easing::CubicOut => {
            assert(ease_at(c, 0) == 0);
            assert(ease_at(c, 1000) == 1000);
        },
        Easing::SineInOut => {
            assert(ease_at(c, 0) == 0);
            assert(1000 * 1000 * (3000 - 2 * 1000) == 1_000_000_000int) by (nonlinear_arith);
            assert(ease_at(c, 1000) == 1_000_000_000int / 1_000_000);
        },
        Easing::BackIn => {
            assert(ease_at(c, 0) == 0);
            assert(1000 * 1000 * (2702 * 1000 - 1_702_000) == 1_000_000_000_000int)
                by (nonlinear_arith);
            assert(ease_at(c, 1000) == 1_000_000_000_000int / 1_000_000_000);
        },
    }
}

/// Eased progress never leaves `[-SCALE, SCALE]`; curves other than back-in
/// stay within `[0, SCALE]`.
pub proof fn lemma_ease_bounds(c: Easing, t: int)
    requires
        0 <= t <= 1000,
    ensures
        -1000 <= ease_at(c, t) <= 1000,
        c != Easing::BackIn ==> 0 <= ease_at(c, t),
{
    match c {
        Easing::Linear => {},
        Easing::CubicOut => {
            let u = 1000 - t;
            assert(0 <= u * u * u <= 1_000_000_000) by (nonlinear_arith)
                requires
                    0 <= u <= 1000,
            ;
        },
        Easing::SineInOut => {
            // 10^9 - t^2 (3000 - 2t) = (1000 - t)^2 (2t + 1000) >= 0
            assert(t * t * (3000 - 2 * t) + (1000 - t) * (1000 - t) * (2 * t + 1000)
                == 1_000_000_000) by (nonlinear_arith);
            assert((1000 - t) * (1000 - t) * (2 * t + 1000) >= 0) by (nonlinear_arith)
                requires
                    0 <= t <= 1000,
            ;
            assert(t * t * (3000 - 2 * t) >= 0) by (nonlinear_arith)
                requires
                    0 <= t <= 1000,
            ;
        },
        Easing::BackIn => {
            if 2702 * t >= 1_702_000 {
                // 10^12 - t^2 (2702 t - 1702000) = (1000 - t)(2702 t^2 + 10^6 t + 10^9)
                assert(t * t * (2702 * t - 1_702_000)
                    + (1000 - t) * (2702 * t * t + 1_000_000 * t + 1_000_000_000)
                    == 1_000_000_000_000) by (nonlinear_arith);
                assert((1000 - t) * (2702 * t * t + 1_000_000 * t + 1_000_000_000) >= 0)
                    by (nonlinear_arith)
                    requires
                        0 <= t <= 1000,
                ;
                assert(t * t * (2702 * t - 1_702_000) >= 0) by (nonlinear_arith)
                    requires
                        2702 * t >= 1_702_000,
                ;
            } else {
                assert(0 <= t * t * (1_702_000 - 2702 * t) <= 1_000_000_000_000)
                    by (nonlinear_arith)
                    requires
                        0 <= t <= 1000,
                        2702 * t < 1_702_000,
                ;
            }
        },
    }
}

/// Every curve but back-in is monotone: later normalized times ease to
/// values at least as large.
pub proof fn lemma_ease_monotone(c: Easing, t1: int, t2: int)
    requires
        0 <= t1 <= t2 <= 1000,
        c != Easing::BackIn,
    ensures
        ease_at(c, t1) <= ease_at(c, t2),
{
    match c {
        Easing::Linear => {},
        Easing::CubicOut => {
            let u1 = 1000 - t1;
            let u2 = 1000 - t2;
            assert(0 <= u2 * u2 * u2 <= u1 * u1 * u1) by (nonlinear_arith)
                requires
                    0 <= u2 <= u1,
            ;
            vstd::arithmetic::div_mod::lemma_div_is_ordered(u2 * u2 * u2, u1 * u1 * u1,
                1_000_000);
        },
        Easing::SineInOut => {
            assert(t1 * t1 * (3000 - 2 * t1) <= t2 * t2 * (3000 - 2 * t2)) by (nonlinear_arith)
                requires
                    0 <= t1 <= t2 <= 1000,
            ;
            vstd::arithmetic::div_mod::lemma_div_is_ordered(t1 * t1 * (3000 - 2 * t1),
                t2 * t2 * (3000 - 2 * t2), 1_000_000);
        },
        Easing::BackIn => {},
    }
}

/// Evaluate an easing curve at normalized time `t`.
pub fn ease_apply(c: Easing, t: i64) -> (r: i64)
    requires
        0 <= t <= 1000,
    ensures
        r == ease_at(c, t as int),
{
    proof {
        lemma_ease_bounds(c, t as int);
    }
    match c {
        Easing::Linear => t,
        Easing::CubicOut => {
            let u: i64 = 1000 - t;
            assert(0 <= u * u <= 1_000_000) by (nonlinear_arith)
                requires
                    0 <= u <= 1000,
            ;
            let uu: i64 = u * u;
            assert(0 <= uu * u <= 1_000_000_000) by (nonlinear_arith)
                requires
                    0 <= uu <= 1_000_000,
                    0 <= u <= 1000,
            ;
            1000 - uu * u / 1_000_000
        },
        Easing::SineInOut => {
            assert(0 <= t * t <= 1_000_000) by (nonlinear_arith)
                requires
                    0 <= t <= 1000,
            ;
            let tt: i64 = t * t;
            let f: i64 = 3000 - 2 * t;
            assert(0 <= tt * f <= 3_000_000_000_000) by (nonlinear_arith)
                requires
                    0 <= tt <= 1_000_000,
                    1000 <= f <= 3000,
            ;
            tt * f / 1_000_000
        },
        Easing::BackIn => {
            assert(0 <= t * t <= 1_000_000) by (nonlinear_arith)
                requires
                    0 <= t <= 1000,
            ;
            let tt: i64 = t * t;
            if 2702 * t >= 1_702_000 {
                let f: i64 = 2702 * t - 1_702_000;
                assert(0 <= tt * f <= 1_000_000_000_000) by (nonlinear_arith)
                    requires
                        0 <= tt <= 1_000_000,
                        0 <= f <= 1_000_000,
                ;
                tt * f / 1_000_000_000
            } else {
                let f: i64 = 1_702_000 - 2702 * t;
                assert(0 <= tt * f <= 2_000_000_000_000) by (nonlinear_arith)
                    requires
                        0 <= tt <= 1_000_000,
                        0 <= f <= 2_000_000,
                ;
                -(tt * f / 1_000_000_000)
            }
        },
    }
}

} // verus!
