//! The transform a slide is drawn with, and the geometry helpers shared by
//! the orchestrator variants.
//!
//! Positions live in normalized screen space: `0` is the left/top edge and
//! `SCALE` (one thousand) the right/bottom edge. Scales are per-mille of the
//! texture's own pixel size, rotations are in milli-degrees.

use vstd::prelude::*;
use vstd::arithmetic::div_mod::{lemma_div_is_ordered, lemma_div_pos_is_pos};
use crate::config::{Config, MAX_DIMENSION};
use crate::tween::VAL_MAX;

verus! {

/// Bound on a transform component while an animation is in flight; curves
/// with overshoot may leave `[-VAL_MAX, VAL_MAX]` but never this interval.
pub const FLIGHT_MAX: i64 = 3_000_000_000;

/// Position, scale and rotation of one slide, in fixed-point units.
#[derive(Clone, Copy, Debug, PartialEq, Eq, Structural)]
pub struct Transform {
    /// Horizontal center, milli-units of the screen width.
    pub x: i64,
    /// Vertical center, milli-units of the screen height.
    pub y: i64,
    /// Per-mille of the texture's pixel size.
    pub scale: i64,
    /// Milli-degrees, clockwise.
    pub rotation: i64,
}

impl Transform {
    /// Components small enough to be a tween endpoint.
    pub open spec fn well_formed(self) -> bool {
        &&& -VAL_MAX <= self.x <= VAL_MAX
        &&& -VAL_MAX <= self.y <= VAL_MAX
        &&& -VAL_MAX <= self.scale <= VAL_MAX
        &&& -VAL_MAX <= self.rotation <= VAL_MAX
    }

    /// Components within the range an animation in flight may reach.
    pub open spec fn in_flight_bounds(self) -> bool {
        &&& -FLIGHT_MAX <= self.x <= FLIGHT_MAX
        &&& -FLIGHT_MAX <= self.y <= FLIGHT_MAX
        &&& -FLIGHT_MAX <= self.scale <= FLIGHT_MAX
        &&& -FLIGHT_MAX <= self.rotation <= FLIGHT_MAX
    }
}

/// Per-mille scale at which a texture of the given pixel size fits within
/// 90% of the output frame: a wide image is measured against the width, a
/// tall one against the height, and an image that already fits keeps its
/// natural size.
pub open spec fn prominent_scale_spec(width: int, height: int, cfg: Config) -> int {
    if width > height {
        if 10 * width > 9 * cfg.render_width {
            900 * cfg.render_width / width
        } else {
            1000
        }
    } else {
        if 10 * height > 9 * cfg.render_height {
            900 * cfg.render_height / height
        } else {
            1000
        }
    }
}

/// The prominent pose a slide starts in: centered, fit to the frame, unrotated.
pub open spec fn prominent_transform_spec(width: int, height: int, cfg: Config) -> Transform {
    Transform {
        x: 500,
        y: 500,
        scale: prominent_scale_spec(width, height, cfg) as i64,
        rotation: 0,
    }
}

/// Compute the prominent per-mille scale for a texture.
pub fn prominent_scale(width: u32, height: u32, cfg: &Config) -> (s: i64)
    requires
        cfg.well_formed(),
        1 <= width <= MAX_DIMENSION,
        1 <= height <= MAX_DIMENSION,
    ensures
        s == prominent_scale_spec(width as int, height as int, *cfg),
        0 <= s <= 1000,
{
    if width > height {
        if 10 * (width as u64) > 9 * (cfg.render_width as u64) {
            let s: i64 = (900 * (cfg.render_width as i64)) / (width as i64);
            proof {
                lemma_div_pos_is_pos(900 * cfg.render_width, width as int);
                assert(900 * cfg.render_width <= 1000 * width - 1) by (nonlinear_arith)
                    requires
                        10 * width > 9 * cfg.render_width,
                ;
                lemma_div_is_ordered(900 * cfg.render_width, 1000 * width - 1, width as int);
                lemma_scaled_div_bound(width as int);
            }
            s
        } else {
            1000
        }
    } else {
        if 10 * (height as u64) > 9 * (cfg.render_height as u64) {
            let s: i64 = (900 * (cfg.render_height as i64)) / (height as i64);
            proof {
                lemma_div_pos_is_pos(900 * cfg.render_height, height as int);
                assert(900 * cfg.render_height <= 1000 * height - 1) by (nonlinear_arith)
                    requires
                        10 * height > 9 * cfg.render_height,
                ;
                lemma_div_is_ordered(900 * cfg.render_height, 1000 * height - 1, height as int);
                lemma_scaled_div_bound(height as int);
            }
            s
        } else {
            1000
        }
    }
}

/// `(d*1000 - 1) / d <= 999` for positive `d`.
proof fn lemma_scaled_div_bound(d: int)
    requires
        d >= 1,
    ensures
        (1000 * d - 1) / d <= 999,
{
    assert(1000 * d - 1 == 999 * d + (d - 1)) by (nonlinear_arith);
    vstd::arithmetic::div_mod::lemma_div_multiples_vanish_fancy(999, d - 1, d);
}

/// Compute the prominent pose for a texture.
pub fn prominent_transform(width: u32, height: u32, cfg: &Config) -> (t: Transform)
    requires
        cfg.well_formed(),
        1 <= width <= MAX_DIMENSION,
        1 <= height <= MAX_DIMENSION,
    ensures
        t == prominent_transform_spec(width as int, height as int, *cfg),
        t.well_formed(),
        0 <= t.scale <= 1000,
{
    let scale = prominent_scale(width, height, cfg);
    Transform { x: 500, y: 500, scale, rotation: 0 }
}

} // verus!
