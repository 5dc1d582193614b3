//! One animated slide: a texture reference, a transform, a visibility flag
//! and the four tweens that carry the transform from its prominent pose to a
//! background target.
//!
//! A slide starts centered and fit to the frame. `set_final_position` records
//! the background target, `start_background_animation` snapshots the current
//! transform and arms the tweens toward the target, and `update` advances
//! them; when the shared animation duration elapses, the transform is snapped
//! exactly onto the target and the slide stops animating.

use vstd::prelude::*;
use crate::config::{Config, MAX_DIMENSION, MAX_TICKS};
use crate::easing::Easing;
use crate::transform::{prominent_transform, prominent_transform_spec, Transform};
use crate::tween::Tween;

verus! {

/// Everything the render pass needs to draw one slide: where its center
/// goes on the output frame, how large it is, and how it is rotated. All
/// lengths are in milli-pixels, rotations in milli-degrees.
#[derive(Clone, Copy, Debug, PartialEq, Eq, Structural)]
pub struct DrawCommand {
    /// Opaque handle of the texture to draw.
    pub texture: usize,
    /// Horizontal center on the output frame, milli-pixels.
    pub center_x: i64,
    /// Vertical center on the output frame, milli-pixels.
    pub center_y: i64,
    /// Width of the drawn rectangle, milli-pixels.
    pub width: i64,
    /// Height of the drawn rectangle, milli-pixels.
    pub height: i64,
    /// Rotation about the center, milli-degrees clockwise.
    pub rotation: i64,
}

/// An animated entity wrapping one image reference.
///
/// The texture itself is owned outside the engine; a slide carries only an
/// opaque handle and the texture's pixel size, which is all the animation
/// ever reads.
#[derive(Clone, Copy, Debug, PartialEq, Eq, Structural)]
pub struct Slide {
    /// Opaque handle of the texture this slide draws.
    pub texture: usize,
    /// Texture width in pixels, after any pre-baked rotation.
    pub width: u32,
    /// Texture height in pixels, after any pre-baked rotation.
    pub height: u32,
    /// Hidden slides are skipped by the render pass.
    pub visible: bool,
    /// Whether the background animation is in flight.
    pub is_animating: bool,
    /// Shared duration of the four tweens, in ticks.
    pub animation_ticks: u32,
    /// The transform the slide is drawn with right now.
    pub transform: Transform,
    /// Snapshot of the transform when the animation was armed.
    pub start: Transform,
    /// The background target of the animation.
    pub end: Transform,
    /// Horizontal position tween (cubic-out).
    pub tween_position_x: Tween,
    /// Vertical position tween (cubic-out).
    pub tween_position_y: Tween,
    /// Scale tween (back-in, may briefly overshoot).
    pub tween_scale: Tween,
    /// Rotation tween (sine-in-out).
    pub tween_rotation: Tween,
}

impl Slide {
    /// The four tweens agree with the recorded start and end transforms,
    /// share one clock and one duration, and carry their assigned curves.
    pub open spec fn tweens_consistent(self) -> bool {
        &&& self.tween_position_x.well_formed()
        &&& self.tween_position_y.well_formed()
        &&& self.tween_scale.well_formed()
        &&& self.tween_rotation.well_formed()
        &&& self.tween_position_x.easing == Easing::CubicOut
        &&& self.tween_position_y.easing == Easing::CubicOut
        &&& self.tween_scale.easing == Easing::BackIn
        &&& self.tween_rotation.easing == Easing::SineInOut
        &&& self.tween_position_x.start == self.start.x
        &&& self.tween_position_y.start == self.start.y
        &&& self.tween_scale.start == self.start.scale
        &&& self.tween_rotation.start == self.start.rotation
        &&& self.tween_position_x.end == self.end.x
        &&& self.tween_position_y.end == self.end.y
        &&& self.tween_scale.end == self.end.scale
        &&& self.tween_rotation.end == self.end.rotation
        &&& self.tween_position_x.duration == self.animation_ticks
        &&& self.tween_position_y.duration == self.animation_ticks
        &&& self.tween_scale.duration == self.animation_ticks
        &&& self.tween_rotation.duration == self.animation_ticks
        &&& self.tween_position_y.elapsed == self.tween_position_x.elapsed
        &&& self.tween_scale.elapsed == self.tween_position_x.elapsed
        &&& self.tween_rotation.elapsed == self.tween_position_x.elapsed
    }

    /// Structural invariant of a slide.
    pub open spec fn well_formed(self) -> bool {
        &&& 1 <= self.animation_ticks <= MAX_TICKS
        &&& 1 <= self.width <= MAX_DIMENSION
        &&& 1 <= self.height <= MAX_DIMENSION
        &&& self.start.well_formed()
        &&& self.end.well_formed()
        &&& self.transform.in_flight_bounds()
        &&& !self.is_animating ==> self.transform.well_formed()
        &&& self.tweens_consistent()
    }

    /// Ticks the animation clock has consumed.
    pub open spec fn timer(self) -> int {
        self.tween_position_x.elapsed as int
    }

    /// Build a slide in its prominent pose: centered, fit to the frame,
    /// visible, not animating, its target still equal to its pose.
    pub fn new(texture: usize, width: u32, height: u32, cfg: &Config) -> (s: Slide)
        requires
            cfg.well_formed(),
            1 <= width <= MAX_DIMENSION,
            1 <= height <= MAX_DIMENSION,
        ensures
            s.well_formed(),
            s.texture == texture,
            s.width == width,
            s.height == height,
            s.visible,
            !s.is_animating,
            s.animation_ticks == cfg.animation_ticks,
            s.transform == prominent_transform_spec(width as int, height as int, *cfg),
            0 <= s.transform.scale <= 1000,
            s.start == s.transform,
            s.end == s.transform,
            s.timer() == 0,
    {
        let pose = prominent_transform(width, height, cfg);
        Slide {
            texture,
            width,
            height,
            visible: true,
            is_animating: false,
            animation_ticks: cfg.animation_ticks,
            transform: pose,
            start: pose,
            end: pose,
            tween_position_x: Tween::new(Easing::CubicOut, pose.x, pose.x, cfg.animation_ticks),
            tween_position_y: Tween::new(Easing::CubicOut, pose.y, pose.y, cfg.animation_ticks),
            tween_scale: Tween::new(Easing::BackIn, pose.scale, pose.scale, cfg.animation_ticks),
            tween_rotation: Tween::new(
                Easing::SineInOut,
                pose.rotation,
                pose.rotation,
                cfg.animation_ticks,
            ),
        }
    }

    /// Record the background target the slide will animate toward, arming
    /// the tweens from the current transform.
    pub fn set_final_position(&mut self, target: Transform)
        requires
            old(self).well_formed(),
            !old(self).is_animating,
            target.well_formed(),
        ensures
            final(self).well_formed(),
            final(self).end == target,
            final(self).start == old(self).transform,
            final(self).timer() == 0,
            final(self).transform == old(self).transform,
            final(self).visible == old(self).visible,
            final(self).is_animating == old(self).is_animating,
            final(self).texture == old(self).texture,
            final(self).width == old(self).width,
            final(self).height == old(self).height,
            final(self).animation_ticks == old(self).animation_ticks,
    {
        self.start = self.transform;
        self.end = target;
        self.arm_tweens();
    }

    /// Rebuild the four tweens from `start` toward `end` with a fresh clock.
    fn arm_tweens(&mut self)
        requires
            old(self).start.well_formed(),
            old(self).end.well_formed(),
            1 <= old(self).animation_ticks <= MAX_TICKS,
        ensures
            *final(self) == (Slide {
                tween_position_x: final(self).tween_position_x,
                tween_position_y: final(self).tween_position_y,
                tween_scale: final(self).tween_scale,
                tween_rotation: final(self).tween_rotation,
                ..*old(self)
            }),
            final(self).tweens_consistent(),
            final(self).timer() == 0,
    {
        self.tween_position_x = Tween::new(
            Easing::CubicOut,
            self.start.x,
            self.end.x,
            self.animation_ticks,
        );
        self.tween_position_y = Tween::new(
            Easing::CubicOut,
            self.start.y,
            self.end.y,
            self.animation_ticks,
        );
        self.tween_scale = Tween::new(
            Easing::BackIn,
            self.start.scale,
            self.end.scale,
            self.animation_ticks,
        );
        self.tween_rotation = Tween::new(
            Easing::SineInOut,
            self.start.rotation,
            self.end.rotation,
            self.animation_ticks,
        );
    }

    /// Arm the background animation: snapshot the current transform as the
    /// tween start and restart the shared clock. Idempotent while already
    /// animating.
    pub fn start_background_animation(&mut self)
        requires
            old(self).well_formed(),
        ensures
            final(self).well_formed(),
            old(self).is_animating ==> *final(self) == *old(self),
            !old(self).is_animating ==> {
                &&& final(self).is_animating
                &&& final(self).start == old(self).transform
                &&& final(self).timer() == 0
                &&& final(self).transform == old(self).transform
                &&& final(self).end == old(self).end
                &&& final(self).visible == old(self).visible
                &&& final(self).texture == old(self).texture
                &&& final(self).width == old(self).width
                &&& final(self).height == old(self).height
                &&& final(self).animation_ticks == old(self).animation_ticks
            },
    {
        if !self.is_animating {
            self.start = self.transform;
            self.arm_tweens();
            self.is_animating = true;
        }
    }

    /// Advance the animation by `dt` ticks.
    ///
    /// While animating, the transform follows the four tweens; once the
    /// shared duration has elapsed, the transform is exactly the target and
    /// the slide stops animating. A slide that is not animating is left
    /// untouched.
    pub fn update(&mut self, dt: u32)
        requires
            old(self).well_formed(),
        ensures
            final(self).well_formed(),
            !old(self).is_animating ==> *final(self) == *old(self),
            old(self).is_animating ==> {
                &&& final(self).timer() == if old(self).timer() + dt
                    >= old(self).animation_ticks {
                    old(self).animation_ticks as int
                } else {
                    old(self).timer() + dt
                }
                &&& final(self).transform.x == final(self).tween_position_x.value()
                &&& final(self).transform.y == final(self).tween_position_y.value()
                &&& final(self).transform.scale == final(self).tween_scale.value()
                &&& final(self).transform.rotation == final(self).tween_rotation.value()
                &&& final(self).is_animating == (old(self).timer() + dt
                    < old(self).animation_ticks)
                &&& old(self).timer() + dt >= old(self).animation_ticks ==> final(self).transform
                    == old(self).end
                &&& final(self).start == old(self).start
                &&& final(self).end == old(self).end
                &&& final(self).visible == old(self).visible
                &&& final(self).texture == old(self).texture
                &&& final(self).width == old(self).width
                &&& final(self).height == old(self).height
                &&& final(self).animation_ticks == old(self).animation_ticks
            },
    {
        if !self.is_animating {
            return ;
        }
        let mut tx = self.tween_position_x;
        let mut ty = self.tween_position_y;
        let mut ts = self.tween_scale;
        let mut tr = self.tween_rotation;
        let vx = tx.apply(dt);
        let vy = ty.apply(dt);
        let vs = ts.apply(dt);
        let vr = tr.apply(dt);
        proof {
            tx.lemma_value_bounds();
            ty.lemma_value_bounds();
            ts.lemma_value_bounds();
            tr.lemma_value_bounds();
        }
        self.tween_position_x = tx;
        self.tween_position_y = ty;
        self.tween_scale = ts;
        self.tween_rotation = tr;
        self.transform = Transform { x: vx, y: vy, scale: vs, rotation: vr };
        if tx.finished() {
            self.is_animating = false;
            self.transform = self.end;
        }
    }

    /// What to draw for this slide, or nothing while it is hidden: the
    /// texture at the transform's position scaled by the transform's scale,
    /// rotated about its center.
    pub fn draw(&self, cfg: &Config) -> (cmd: Option<DrawCommand>)
        requires
            self.well_formed(),
            cfg.well_formed(),
        ensures
            cmd.is_some() == self.visible,
            cmd matches Some(c) ==> {
                &&& c.texture == self.texture
                &&& c.center_x == cfg.render_width * self.transform.x
                &&& c.center_y == cfg.render_height * self.transform.y
                &&& c.width == self.width * self.transform.scale
                &&& c.height == self.height * self.transform.scale
                &&& c.rotation == self.transform.rotation
            },
    {
        if !self.visible {
            return None;
        }
        proof {
            lemma_scaled_products(
                cfg.render_width as int,
                cfg.render_height as int,
                self.width as int,
                self.height as int,
                self.transform.x as int,
                self.transform.y as int,
                self.transform.scale as int,
            );
        }
        Some(
            DrawCommand {
                texture: self.texture,
                center_x: (cfg.render_width as i64) * self.transform.x,
                center_y: (cfg.render_height as i64) * self.transform.y,
                width: (self.width as i64) * self.transform.scale,
                height: (self.height as i64) * self.transform.scale,
                rotation: self.transform.rotation,
            },
        )
    }
}

/// Products of a pixel extent and an in-flight fixed-point value stay far
/// inside `i64`.
proof fn lemma_scaled_products(rw: int, rh: int, w: int, h: int, x: int, y: int, s: int)
    requires
        0 < rw <= MAX_DIMENSION,
        0 < rh <= MAX_DIMENSION,
        0 < w <= MAX_DIMENSION,
        0 < h <= MAX_DIMENSION,
        -3_000_000_000 <= x <= 3_000_000_000,
        -3_000_000_000 <= y <= 3_000_000_000,
        -3_000_000_000 <= s <= 3_000_000_000,
    ensures
        -50_000_000_000_000 <= rw * x <= 50_000_000_000_000,
        -50_000_000_000_000 <= rh * y <= 50_000_000_000_000,
        -50_000_000_000_000 <= w * s <= 50_000_000_000_000,
        -50_000_000_000_000 <= h * s <= 50_000_000_000_000,
{
    assert(-50_000_000_000_000 <= rw * x <= 50_000_000_000_000) by (nonlinear_arith)
        requires
            0 < rw <= 16384,
            -3_000_000_000 <= x <= 3_000_000_000,
    ;
    assert(-50_000_000_000_000 <= rh * y <= 50_000_000_000_000) by (nonlinear_arith)
        requires
            0 < rh <= 16384,
            -3_000_000_000 <= y <= 3_000_000_000,
    ;
    assert(-50_000_000_000_000 <= w * s <= 50_000_000_000_000) by (nonlinear_arith)
        requires
            0 < w <= 16384,
            -3_000_000_000 <= s <= 3_000_000_000,
    ;
    assert(-50_000_000_000_000 <= h * s <= 50_000_000_000_000) by (nonlinear_arith)
        requires
            0 < h <= 16384,
            -3_000_000_000 <= s <= 3_000_000_000,
    ;
}

} // verus!
