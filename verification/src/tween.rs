//! The tween: a pure time-to-value interpolator.
//!
//! A tween carries a start value, an end value, a duration in ticks and an
//! easing curve; `apply` advances its private clock and returns the eased
//! value between start and end. Elapsed time only ever grows, and from the
//! moment it reaches the duration every call returns exactly `end`: the
//! interpolation clamps with no overshoot and no drift.

use vstd::prelude::*;
use vstd::arithmetic::div_mod::{
    lemma_div_is_ordered, lemma_div_multiples_vanish, lemma_div_pos_is_pos,
};
use crate::config::MAX_TICKS;
use crate::easing::{ease_apply, ease_at, lemma_ease_bounds, lemma_ease_monotone, Easing};

verus! {

/// Largest magnitude an animated value may have (one million wholes on the
/// fixed-point grid). Keeps every product in the interpolation within `i64`.
pub const VAL_MAX: i64 = 1_000_000_000;

/// Division by the fixed-point scale, rounding toward zero, as the machine
/// division of a possibly negative numerator does.
pub open spec fn scale_div(n: int) -> int {
    if n >= 0 {
        n / 1000
    } else {
        -((-n) / 1000)
    }
}

/// A time-to-value interpolator over the fixed-point grid.
#[derive(Clone, Copy, Debug, PartialEq, Eq, Structural)]
pub struct Tween {
    /// Value returned at elapsed time zero.
    pub start: i64,
    /// Value returned once the duration has passed.
    pub end: i64,
    /// Length of the interpolation, in ticks; never zero.
    pub duration: u32,
    /// Curve shaping the progress between start and end.
    pub easing: Easing,
    /// Ticks consumed so far; only ever grows, capped at `duration`.
    pub elapsed: u32,
}

impl Tween {
    /// Field bounds under which all interpolation arithmetic fits in `i64`.
    pub open spec fn well_formed(self) -> bool {
        &&& 1 <= self.duration <= MAX_TICKS
        &&& self.elapsed <= self.duration
        &&& -VAL_MAX <= self.start <= VAL_MAX
        &&& -VAL_MAX <= self.end <= VAL_MAX
    }

    /// Normalized progress on the `[0, 1000]` grid.
    pub open spec fn progress(self) -> int {
        if self.elapsed >= self.duration {
            1000
        } else {
            self.elapsed * 1000 / (self.duration as int)
        }
    }

    /// The value the tween stands at: `end` exactly once the duration has
    /// elapsed, otherwise `start` plus the eased share of the difference.
    pub open spec fn value(self) -> int {
        if self.elapsed >= self.duration {
            self.end as int
        } else {
            self.start + scale_div((self.end - self.start) * ease_at(self.easing, self.progress()))
        }
    }

    /// Build a tween standing at its start value.
    pub fn new(easing: Easing, start: i64, end: i64, duration: u32) -> (t: Tween)
        requires
            1 <= duration <= MAX_TICKS,
            -VAL_MAX <= start <= VAL_MAX,
            -VAL_MAX <= end <= VAL_MAX,
        ensures
            t.well_formed(),
            t.easing == easing,
            t.start == start,
            t.end == end,
            t.duration == duration,
            t.elapsed == 0,
    {
        Tween { start, end, duration, easing, elapsed: 0 }
    }

    /// Whether the interpolation has reached its end.
    pub fn finished(&self) -> (r: bool)
        ensures
            r == (self.elapsed >= self.duration),
    {
        self.elapsed >= self.duration
    }

    /// Advance the tween's clock by `dt` ticks and return its value.
    ///
    /// Elapsed time never decreases and saturates at the duration; from that
    /// point on the result is exactly `end`.
    pub fn apply(&mut self, dt: u32) -> (v: i64)
        requires
            old(self).well_formed(),
        ensures
            final(self).well_formed(),
            final(self).start == old(self).start,
            final(self).end == old(self).end,
            final(self).duration == old(self).duration,
            final(self).easing == old(self).easing,
            final(self).elapsed == if old(self).elapsed + dt >= old(self).duration {
                old(self).duration as int
            } else {
                old(self).elapsed + dt
            },
            v == final(self).value(),
            old(self).elapsed + dt >= old(self).duration ==> v == old(self).end,
    {
        let advanced: u64 = self.elapsed as u64 + dt as u64;
        if advanced >= self.duration as u64 {
            self.elapsed = self.duration;
            self.end
        } else {
            self.elapsed = advanced as u32;
            let e: i64 = self.elapsed as i64;
            let d: i64 = self.duration as i64;
            let t: i64 = e * 1000 / d;
            proof {
                lemma_div_pos_is_pos(e * 1000, d as int);
                lemma_div_is_ordered(e * 1000, d * 1000, d as int);
                lemma_div_multiples_vanish(1000, d as int);
                assert(e * 1000 <= d * 1000) by (nonlinear_arith)
                    requires
                        0 <= e <= d,
                ;
                lemma_ease_bounds(self.easing, t as int);
            }
            let eased: i64 = ease_apply(self.easing, t);
            let delta: i64 = self.end - self.start;
            assert(-2_000_000_000_000 <= delta * eased <= 2_000_000_000_000) by (nonlinear_arith)
                requires
                    -2 * VAL_MAX <= delta <= 2 * VAL_MAX,
                    -1000 <= eased <= 1000,
            ;
            let prod: i64 = delta * eased;
            let shift: i64;
            if prod >= 0 {
                proof {
                    lemma_div_pos_is_pos(prod as int, 1000);
                    lemma_div_is_ordered(prod as int, 2_000_000_000_000, 1000);
                }
                shift = prod / 1000;
            } else {
                proof {
                    lemma_div_pos_is_pos(-(prod as int), 1000);
                    lemma_div_is_ordered(-(prod as int), 2_000_000_000_000, 1000);
                }
                shift = -((-prod) / 1000);
            }
            self.start + shift
        }
    }

    /// Normalized progress stays on the `[0, 1000]` grid, and strictly below
    /// `1000` while the duration has not elapsed.
    pub proof fn lemma_progress_bounds(self)
        requires
            self.well_formed(),
        ensures
            0 <= self.progress() <= 1000,
            self.elapsed < self.duration ==> self.progress() < 1000,
    {
        if self.elapsed < self.duration {
            lemma_div_pos_is_pos(self.elapsed * 1000, self.duration as int);
            assert(self.elapsed * 1000 <= (self.duration - 1) * 1000) by (nonlinear_arith)
                requires
                    self.elapsed <= self.duration - 1,
            ;
            lemma_div_is_ordered(self.elapsed * 1000, self.duration * 1000 - 1000,
                self.duration as int);
            assert((self.duration * 1000 - 1000) / (self.duration as int) < 1000) by {
                assert(self.duration * 1000 - 1000 == (self.duration as int) * 1000 - 1000);
                lemma_div_manual_bound(self.duration as int);
            }
        }
    }

    /// A well-formed tween's value never leaves `[-3 * VAL_MAX, 3 * VAL_MAX]`:
    /// the overshoot of any curve is bounded by the start-to-end distance.
    pub proof fn lemma_value_bounds(self)
        requires
            self.well_formed(),
        ensures
            -3_000_000_000 <= self.value() <= 3_000_000_000,
    {
        if self.elapsed >= self.duration {
        } else {
            self.lemma_progress_bounds();
            lemma_ease_bounds(self.easing, self.progress());
            let delta = self.end - self.start;
            let eased = ease_at(self.easing, self.progress());
            assert(-2_000_000_000_000 <= delta * eased <= 2_000_000_000_000) by (nonlinear_arith)
                requires
                    -2_000_000_000 <= delta <= 2_000_000_000,
                    -1000 <= eased <= 1000,
            ;
            let prod = delta * eased;
            if prod >= 0 {
                lemma_div_pos_is_pos(prod, 1000);
                lemma_div_is_ordered(prod, 2_000_000_000_000, 1000);
            } else {
                lemma_div_pos_is_pos(-prod, 1000);
                lemma_div_is_ordered(-prod, 2_000_000_000_000, 1000);
            }
        }
    }

    /// With any curve that stays within `[0, 1]` — every curve but back-in —
    /// the value never leaves the closed interval between start and end.
    pub proof fn lemma_value_within_endpoints(self)
        requires
            self.well_formed(),
            self.easing != Easing::BackIn,
        ensures
            self.start <= self.end ==> self.start <= self.value() <= self.end,
            self.end <= self.start ==> self.end <= self.value() <= self.start,
    {
        if self.elapsed >= self.duration {
        } else {
            let delta = self.end - self.start;
            self.lemma_progress_bounds();
            lemma_ease_bounds(self.easing, self.progress());
            let t = ease_at(self.easing, self.progress());
            if delta >= 0 {
                assert(0 <= delta * t <= delta * 1000) by (nonlinear_arith)
                    requires
                        0 <= t <= 1000,
                        delta >= 0,
                ;
                lemma_div_pos_is_pos(delta * t, 1000);
                lemma_div_is_ordered(delta * t, delta * 1000, 1000);
                lemma_div_multiples_vanish(delta, 1000);
            } else {
                assert(0 <= (-delta) * t <= (-delta) * 1000) by (nonlinear_arith)
                    requires
                        0 <= t <= 1000,
                        delta < 0,
                ;
                lemma_div_pos_is_pos((-delta) * t, 1000);
                lemma_div_is_ordered((-delta) * t, (-delta) * 1000, 1000);
                lemma_div_multiples_vanish(-delta, 1000);
                assert(-(delta * t) == (-delta) * t) by (nonlinear_arith);
            }
        }
    }

    /// With any curve but back-in the value monotonically approaches the
    /// end value as the clock advances: of two states of one tween, the
    /// later one stands no farther from `end`.
    pub proof fn lemma_monotone_approach(self, later: Tween)
        requires
            self.well_formed(),
            later.well_formed(),
            self.easing != Easing::BackIn,
            later.easing == self.easing,
            later.start == self.start,
            later.end == self.end,
            later.duration == self.duration,
            self.elapsed <= later.elapsed,
        ensures
            self.start <= self.end ==> self.value() <= later.value(),
            self.end <= self.start ==> later.value() <= self.value(),
    {
        self.lemma_value_within_endpoints();
        later.lemma_value_within_endpoints();
        if later.elapsed >= later.duration {
        } else {
            self.lemma_progress_bounds();
            later.lemma_progress_bounds();
            assert(self.elapsed < self.duration);
            lemma_div_is_ordered(self.elapsed * 1000, later.elapsed * 1000,
                self.duration as int);
            lemma_ease_monotone(self.easing, self.progress(), later.progress());
            lemma_ease_bounds(self.easing, self.progress());
            lemma_ease_bounds(self.easing, later.progress());
            let e1 = ease_at(self.easing, self.progress());
            let e2 = ease_at(later.easing, later.progress());
            let delta = self.end - self.start;
            if delta >= 0 {
                assert(0 <= delta * e1 <= delta * e2) by (nonlinear_arith)
                    requires
                        0 <= e1 <= e2,
                        delta >= 0,
                ;
                lemma_div_pos_is_pos(delta * e1, 1000);
                lemma_div_is_ordered(delta * e1, delta * e2, 1000);
            } else {
                assert(0 <= (-delta) * e1 && (-delta) * e1 <= (-delta) * e2) by (nonlinear_arith)
                    requires
                        0 <= e1 <= e2,
                        delta < 0,
                ;
                lemma_div_pos_is_pos((-delta) * e1, 1000);
                lemma_div_is_ordered((-delta) * e1, (-delta) * e2, 1000);
                assert(-(delta * e1) == (-delta) * e1) by (nonlinear_arith);
                assert(-(delta * e2) == (-delta) * e2) by (nonlinear_arith);
            }
        }
    }
}

/// `(d*1000 - 1000) / d < 1000` for positive `d`.
proof fn lemma_div_manual_bound(d: int)
    requires
        d >= 1,
    ensures
        (d * 1000 - 1000) / d < 1000,
{
    assert(d * 1000 - 1000 == (d - 1) * 1000) by (nonlinear_arith);
    assert((d - 1) * 1000 < d * 1000) by (nonlinear_arith)
        requires
            d >= 1,
    ;
    lemma_div_multiples_vanish(1000, d);
    assert((d - 1) * 1000 <= d * 1000 - 1);
    lemma_div_is_ordered((d - 1) * 1000, d * 1000 - 1, d);
    lemma_div_smaller_than_multiple(d);
}

/// `(d*1000 - 1) / d <= 999` for positive `d`.
proof fn lemma_div_smaller_than_multiple(d: int)
    requires
        d >= 1,
    ensures
        (d * 1000 - 1) / d <= 999,
{
    assert(d * 1000 - 1 == 999 * d + (d - 1)) by (nonlinear_arith);
    assert((999 * d + (d - 1)) / d == 999) by {
        vstd::arithmetic::div_mod::lemma_div_multiples_vanish_fancy(999, d - 1, d);
    }
}

/// Once the elapsed time has reached the duration, the value is exactly the
/// end value: the tween clamps there and never overshoots past it.
pub proof fn lemma_tween_settled(t: Tween)
    requires
        t.well_formed(),
        t.elapsed >= t.duration,
    ensures
        t.value() == t.end,
{
}

} // verus!
