//! One slide of the push-box carousel: it slides in from the left, zooms
//! in, is held while a Ken-Burns pan/zoom moves the visible crop toward the
//! subject, zooms out and slides off to the right. Each phase runs on its
//! own tween; the phases advance strictly forward.

use vstd::prelude::*;
use crate::config::{Config, MAX_DIMENSION, MAX_TICKS};
use crate::detect::SubjectBox;
use crate::easing::Easing;
use crate::push_box::state::{next_state, rank, PushBoxState};
use crate::transform::prominent_scale;
use crate::tween::{Tween, VAL_MAX};

verus! {

/// The Ken-Burns target scale, per-mille: half the subject-to-image size
/// ratio plus one half, clamped to `[0.7, 1.0]`.
pub open spec fn ken_burns_end_scale(subject_size: int, image_size: int) -> int
    recommends
        1 <= image_size,
{
    let raw = subject_size * 1000 / image_size / 2 + 500;
    if raw < 700 {
        700
    } else if raw > 1000 {
        1000
    } else {
        raw
    }
}

/// The Ken-Burns pan target in milli-pixels: how far the subject's center
/// sits from the image center on one axis, given the subject's near edge,
/// its extent, and the image extent in pixels.
pub open spec fn ken_burns_end_pan(edge: int, extent: int, image_extent: int) -> int {
    (2 * edge + extent - image_extent) * 500
}

/// Everything the render pass needs to draw one push-box slide: the
/// destination rectangle on the output frame and the source crop within
/// the texture. All lengths are in milli-pixels.
#[derive(Clone, Copy, Debug, PartialEq, Eq, Structural)]
pub struct PushDrawCommand {
    /// Opaque handle of the texture to draw.
    pub texture: usize,
    /// Horizontal center on the output frame, milli-pixels.
    pub center_x: i64,
    /// Vertical center on the output frame, milli-pixels.
    pub center_y: i64,
    /// Width of the drawn rectangle, milli-pixels.
    pub width: i64,
    /// Height of the drawn rectangle, milli-pixels.
    pub height: i64,
    /// Left edge of the source crop, milli-pixels.
    pub src_x: i64,
    /// Top edge of the source crop, milli-pixels.
    pub src_y: i64,
    /// Width of the source crop, milli-pixels.
    pub src_w: i64,
    /// Height of the source crop, milli-pixels.
    pub src_h: i64,
}

/// One slide of the push-box carousel.
#[derive(Clone, Copy, Debug, PartialEq, Eq, Structural)]
#[verifier::ext_equal]
pub struct Slide {
    /// Opaque handle of the texture this slide draws.
    pub texture: usize,
    /// Texture width in pixels.
    pub width: u32,
    /// Texture height in pixels.
    pub height: u32,
    /// Hidden slides are skipped by the render pass.
    pub visible: bool,
    /// Current phase; advances strictly forward.
    pub state: PushBoxState,
    /// Whether the slide is being driven; cleared when Exiting completes.
    pub is_animating: bool,
    /// Ticks spent in the current phase.
    pub animation_timer: u32,
    /// Duration of the Displaying phase, in ticks.
    pub display_ticks: u32,
    /// Duration of every other phase, in ticks.
    pub animation_ticks: u32,
    /// Scale while entering and exiting: half the fitted scale, per-mille.
    pub initial_scale: i64,
    /// Scale while displayed: fit to the frame, per-mille.
    pub final_scale: i64,
    /// Horizontal center, milli-units of the screen width.
    pub position_x: i64,
    /// Vertical center, milli-units of the screen height.
    pub position_y: i64,
    /// Current scale, per-mille.
    pub scale: i64,
    /// Current Ken-Burns crop scale, per-mille of the full image.
    pub ken_burns_scale: i64,
    /// Current Ken-Burns pan, milli-pixels.
    pub ken_burns_pan_x: i64,
    /// Current Ken-Burns pan, milli-pixels.
    pub ken_burns_pan_y: i64,
    /// Drives `position_x` while Entering.
    pub tween_entering: Tween,
    /// Drives `scale` while ZoomingIn.
    pub tween_zooming_in: Tween,
    /// Drives `scale` while ZoomingOut.
    pub tween_zooming_out: Tween,
    /// Drives `position_x` while Exiting.
    pub tween_exiting: Tween,
    /// Drives the crop scale while Displaying.
    pub tween_ken_burns_scale: Tween,
    /// Drives the crop pan while Displaying.
    pub tween_ken_burns_pan_x: Tween,
    /// Drives the crop pan while Displaying.
    pub tween_ken_burns_pan_y: Tween,
}

/// The transition relation of one `update` call: what a slide advanced by
/// `dt` ticks looks like in terms of its previous state. A slide that is
/// not animating is untouched; otherwise the current phase's tween drives
/// its field, every other animated field holds still, and the phase rolls
/// over when its duration elapses.
pub open spec fn advanced_by(pre: Slide, post: Slide, dt: int) -> bool {
    if !pre.is_animating {
        post == pre
    } else {
        let expired = pre.animation_timer + dt >= pre.active_duration();
        &&& post.state == if expired {
            next_state(pre.state)
        } else {
            pre.state
        }
        &&& post.animation_timer == if expired {
            0int
        } else {
            pre.animation_timer + dt
        }
        &&& post.is_animating == !(expired && pre.state == PushBoxState::Exiting)
        &&& post.visible == if expired && pre.state == PushBoxState::Exiting {
            false
        } else {
            pre.visible
        }
        &&& post.texture == pre.texture
        &&& post.width == pre.width
        &&& post.height == pre.height
        &&& post.display_ticks == pre.display_ticks
        &&& post.animation_ticks == pre.animation_ticks
        &&& post.initial_scale == pre.initial_scale
        &&& post.final_scale == pre.final_scale
        &&& post.position_y == pre.position_y
        &&& pre.state == PushBoxState::Entering ==> post.position_x
            == post.tween_entering.value() && post.scale == pre.initial_scale
        &&& pre.state == PushBoxState::ZoomingIn ==> post.scale
            == post.tween_zooming_in.value() && post.position_x == 500
        &&& pre.state == PushBoxState::Displaying ==> {
            &&& post.ken_burns_scale == post.tween_ken_burns_scale.value()
            &&& post.ken_burns_pan_x == post.tween_ken_burns_pan_x.value()
            &&& post.ken_burns_pan_y == post.tween_ken_burns_pan_y.value()
            &&& post.position_x == 500
            &&& post.scale == pre.final_scale
        }
        &&& pre.state == PushBoxState::ZoomingOut ==> post.scale
            == post.tween_zooming_out.value() && post.position_x == 500
        &&& pre.state == PushBoxState::Exiting ==> post.position_x
            == post.tween_exiting.value() && post.scale == pre.initial_scale
        &&& pre.state != PushBoxState::Displaying ==> {
            &&& post.ken_burns_scale == pre.ken_burns_scale
            &&& post.ken_burns_pan_x == pre.ken_burns_pan_x
            &&& post.ken_burns_pan_y == pre.ken_burns_pan_y
            &&& post.tween_ken_burns_scale == pre.tween_ken_burns_scale
            &&& post.tween_ken_burns_pan_x == pre.tween_ken_burns_pan_x
            &&& post.tween_ken_burns_pan_y == pre.tween_ken_burns_pan_y
        }
        &&& post.tween_ken_burns_scale.end == pre.tween_ken_burns_scale.end
        &&& post.tween_ken_burns_pan_x.end == pre.tween_ken_burns_pan_x.end
        &&& post.tween_ken_burns_pan_y.end == pre.tween_ken_burns_pan_y.end
    }
}

impl Slide {
    /// Ticks the current phase lasts.
    pub open spec fn active_duration(self) -> int {
        if self.state == PushBoxState::Displaying {
            self.display_ticks as int
        } else {
            self.animation_ticks as int
        }
    }

    /// The fixed wiring of the seven tweens.
    pub open spec fn tweens_wired(self) -> bool {
        &&& self.tween_entering.well_formed()
        &&& self.tween_entering.easing == Easing::CubicOut
        &&& self.tween_entering.start == -500
        &&& self.tween_entering.end == 500
        &&& self.tween_entering.duration == self.animation_ticks
        &&& self.tween_zooming_in.well_formed()
        &&& self.tween_zooming_in.easing == Easing::CubicOut
        &&& self.tween_zooming_in.start == self.initial_scale
        &&& self.tween_zooming_in.end == self.final_scale
        &&& self.tween_zooming_in.duration == self.animation_ticks
        &&& self.tween_zooming_out.well_formed()
        &&& self.tween_zooming_out.easing == Easing::CubicOut
        &&& self.tween_zooming_out.start == self.final_scale
        &&& self.tween_zooming_out.end == self.initial_scale
        &&& self.tween_zooming_out.duration == self.animation_ticks
        &&& self.tween_exiting.well_formed()
        &&& self.tween_exiting.easing == Easing::CubicOut
        &&& self.tween_exiting.start == 500
        &&& self.tween_exiting.end == 1500
        &&& self.tween_exiting.duration == self.animation_ticks
        &&& self.tween_ken_burns_scale.well_formed()
        &&& self.tween_ken_burns_scale.easing == Easing::Linear
        &&& self.tween_ken_burns_scale.start == 1000
        &&& 700 <= self.tween_ken_burns_scale.end <= 1000
        &&& self.tween_ken_burns_scale.duration == self.display_ticks
        &&& self.tween_ken_burns_pan_x.well_formed()
        &&& self.tween_ken_burns_pan_x.easing == Easing::Linear
        &&& self.tween_ken_burns_pan_x.start == 0
        &&& self.tween_ken_burns_pan_x.duration == self.display_ticks
        &&& self.tween_ken_burns_pan_y.well_formed()
        &&& self.tween_ken_burns_pan_y.easing == Easing::Linear
        &&& self.tween_ken_burns_pan_y.start == 0
        &&& self.tween_ken_burns_pan_y.duration == self.display_ticks
    }

    /// Which tween clocks have run, per phase: past phases have settled,
    /// the current phase's tween carries the phase timer, future phases
    /// have not started.
    pub open spec fn clocks_consistent(self) -> bool {
        &&& match self.state {
            PushBoxState::Entering => {
                &&& self.tween_entering.elapsed == self.animation_timer
                &&& self.tween_zooming_in.elapsed == 0
                &&& self.tween_zooming_out.elapsed == 0
                &&& self.tween_exiting.elapsed == 0
                &&& self.tween_ken_burns_scale.elapsed == 0
                &&& self.tween_ken_burns_pan_x.elapsed == 0
                &&& self.tween_ken_burns_pan_y.elapsed == 0
            },
            PushBoxState::ZoomingIn => {
                &&& self.is_animating
                &&& self.tween_entering.elapsed == self.animation_ticks
                &&& self.tween_zooming_in.elapsed == self.animation_timer
                &&& self.tween_zooming_out.elapsed == 0
                &&& self.tween_exiting.elapsed == 0
                &&& self.tween_ken_burns_scale.elapsed == 0
                &&& self.tween_ken_burns_pan_x.elapsed == 0
                &&& self.tween_ken_burns_pan_y.elapsed == 0
            },
            PushBoxState::Displaying => {
                &&& self.is_animating
                &&& self.tween_entering.elapsed == self.animation_ticks
                &&& self.tween_zooming_in.elapsed == self.animation_ticks
                &&& self.tween_zooming_out.elapsed == 0
                &&& self.tween_exiting.elapsed == 0
                &&& self.tween_ken_burns_scale.elapsed == self.animation_timer
                &&& self.tween_ken_burns_pan_x.elapsed == self.animation_timer
                &&& self.tween_ken_burns_pan_y.elapsed == self.animation_timer
            },
            PushBoxState::ZoomingOut => {
                &&& self.is_animating
                &&& self.tween_entering.elapsed == self.animation_ticks
                &&& self.tween_zooming_in.elapsed == self.animation_ticks
                &&& self.tween_zooming_out.elapsed == self.animation_timer
                &&& self.tween_exiting.elapsed == 0
                &&& self.tween_ken_burns_scale.elapsed == self.display_ticks
                &&& self.tween_ken_burns_pan_x.elapsed == self.display_ticks
                &&& self.tween_ken_burns_pan_y.elapsed == self.display_ticks
            },
            PushBoxState::Exiting => {
                &&& self.tween_entering.elapsed == self.animation_ticks
                &&& self.tween_zooming_in.elapsed == self.animation_ticks
                &&& self.tween_zooming_out.elapsed == self.animation_ticks
                &&& self.tween_ken_burns_scale.elapsed == self.display_ticks
                &&& self.tween_ken_burns_pan_x.elapsed == self.display_ticks
                &&& self.tween_ken_burns_pan_y.elapsed == self.display_ticks
                &&& self.is_animating ==> self.tween_exiting.elapsed == self.animation_timer
                &&& !self.is_animating ==> self.tween_exiting.elapsed == self.animation_ticks
            },
        }
        &&& self.is_animating ==> self.animation_timer < self.active_duration()
        &&& !self.is_animating ==> self.animation_timer == 0
        &&& !self.is_animating ==> (self.state == PushBoxState::Entering || self.state
            == PushBoxState::Exiting)
    }

    /// Structural invariant of a push-box slide.
    pub open spec fn well_formed(self) -> bool {
        &&& 1 <= self.animation_ticks <= MAX_TICKS
        &&& 1 <= self.display_ticks <= MAX_TICKS
        &&& 1 <= self.width <= MAX_DIMENSION
        &&& 1 <= self.height <= MAX_DIMENSION
        &&& 0 <= self.initial_scale <= self.final_scale <= 1000
        &&& -500 <= self.position_x <= 1500
        &&& self.position_y == 500
        &&& 0 <= self.scale <= 1000
        &&& 700 <= self.ken_burns_scale <= 1000
        &&& -VAL_MAX <= self.ken_burns_pan_x <= VAL_MAX
        &&& -VAL_MAX <= self.ken_burns_pan_y <= VAL_MAX
        &&& -VAL_MAX <= self.tween_ken_burns_pan_x.end <= VAL_MAX
        &&& -VAL_MAX <= self.tween_ken_burns_pan_y.end <= VAL_MAX
        &&& self.tweens_wired()
        &&& self.clocks_consistent()
    }

    /// Build a slide: hidden, still, waiting at the left edge, with its
    /// Ken-Burns crop derived from the subject box when one is supplied and
    /// from the whole image otherwise.
    pub fn new(
        texture: usize,
        width: u32,
        height: u32,
        subject: Option<SubjectBox>,
        cfg: &Config,
    ) -> (s: Slide)
        requires
            cfg.well_formed(),
            1 <= width <= MAX_DIMENSION,
            1 <= height <= MAX_DIMENSION,
            subject matches Some(b) ==> b.well_formed() && b.x_max <= width && b.y_max <= height,
        ensures
            s.well_formed(),
            s.texture == texture,
            s.width == width,
            s.height == height,
            !s.visible,
            !s.is_animating,
            s.state == PushBoxState::Entering,
            s.animation_timer == 0,
            s.display_ticks == cfg.display_ticks,
            s.animation_ticks == cfg.animation_ticks,
            s.position_x == -500,
            s.scale == s.initial_scale,
            s.final_scale == crate::transform::prominent_scale_spec(
                width as int,
                height as int,
                *cfg,
            ),
            s.initial_scale == s.final_scale / 2,
            s.ken_burns_scale == 1000,
            s.ken_burns_pan_x == 0,
            s.ken_burns_pan_y == 0,
            ({
                let effective = match subject {
                    Some(b) => b.x_max > b.x_min && b.y_max > b.y_min,
                    None => false,
                };
                if effective {
                    let b = subject->Some_0;
                    let size = if b.x_max - b.x_min > b.y_max - b.y_min {
                        b.x_max - b.x_min
                    } else {
                        b.y_max - b.y_min
                    };
                    let image_size = if width > height {
                        width as int
                    } else {
                        height as int
                    };
                    &&& s.tween_ken_burns_scale.end == ken_burns_end_scale(size, image_size)
                    &&& s.tween_ken_burns_pan_x.end == ken_burns_end_pan(
                        b.x_min as int,
                        (b.x_max - b.x_min) as int,
                        width as int,
                    )
                    &&& s.tween_ken_burns_pan_y.end == ken_burns_end_pan(
                        b.y_min as int,
                        (b.y_max - b.y_min) as int,
                        height as int,
                    )
                } else {
                    &&& s.tween_ken_burns_scale.end == 1000
                    &&& s.tween_ken_burns_pan_x.end == 0
                    &&& s.tween_ken_burns_pan_y.end == 0
                }
            }),
    {
        let final_scale = prominent_scale(width, height, cfg);
        let initial_scale = final_scale / 2;
        proof {
            vstd::arithmetic::div_mod::lemma_div_pos_is_pos(final_scale as int, 2);
            vstd::arithmetic::div_mod::lemma_div_is_ordered(
                final_scale as int,
                2 * final_scale as int,
                2,
            );
            vstd::arithmetic::div_mod::lemma_div_multiples_vanish(final_scale as int, 2);
        }
        // The crop region: the subject box when a nonempty one is supplied,
        // the whole image otherwise.
        let (rx, ry, rw, rh): (i64, i64, i64, i64) = match subject {
            Some(b) => {
                if b.x_max > b.x_min && b.y_max > b.y_min {
                    (b.x_min, b.y_min, b.x_max - b.x_min, b.y_max - b.y_min)
                } else {
                    (0, 0, width as i64, height as i64)
                }
            },
            None => (0, 0, width as i64, height as i64),
        };
        let subject_size: i64 = if rw > rh {
            rw
        } else {
            rh
        };
        let image_size: i64 = if width > height {
            width as i64
        } else {
            height as i64
        };
        let base: i64 = subject_size * 1000 / image_size;
        proof {
            assert(0 <= subject_size * 1000 <= image_size * 1000) by (nonlinear_arith)
                requires
                    0 <= subject_size <= image_size,
            ;
            vstd::arithmetic::div_mod::lemma_div_pos_is_pos(
                (subject_size * 1000) as int,
                image_size as int,
            );
            vstd::arithmetic::div_mod::lemma_div_is_ordered(
                (subject_size * 1000) as int,
                (image_size * 1000) as int,
                image_size as int,
            );
            vstd::arithmetic::div_mod::lemma_div_multiples_vanish(1000, image_size as int);
        }
        let raw: i64 = base / 2 + 500;
        let kb_end: i64 = if raw < 700 {
            700
        } else if raw > 1000 {
            1000
        } else {
            raw
        };
        let pan_end_x: i64 = (2 * rx + rw - (width as i64)) * 500;
        let pan_end_y: i64 = (2 * ry + rh - (height as i64)) * 500;
        proof {
            vstd::arithmetic::div_mod::lemma_div_pos_is_pos(base as int, 2);
        }
        Slide {
            texture,
            width,
            height,
            visible: false,
            state: PushBoxState::Entering,
            is_animating: false,
            animation_timer: 0,
            display_ticks: cfg.display_ticks,
            animation_ticks: cfg.animation_ticks,
            initial_scale,
            final_scale,
            position_x: -500,
            position_y: 500,
            scale: initial_scale,
            ken_burns_scale: 1000,
            ken_burns_pan_x: 0,
            ken_burns_pan_y: 0,
            tween_entering: Tween::new(Easing::CubicOut, -500, 500, cfg.animation_ticks),
            tween_zooming_in: Tween::new(
                Easing::CubicOut,
                initial_scale,
                final_scale,
                cfg.animation_ticks,
            ),
            tween_zooming_out: Tween::new(
                Easing::CubicOut,
                final_scale,
                initial_scale,
                cfg.animation_ticks,
            ),
            tween_exiting: Tween::new(Easing::CubicOut, 500, 1500, cfg.animation_ticks),
            tween_ken_burns_scale: Tween::new(Easing::Linear, 1000, kb_end, cfg.display_ticks),
            tween_ken_burns_pan_x: Tween::new(Easing::Linear, 0, pan_end_x, cfg.display_ticks),
            tween_ken_burns_pan_y: Tween::new(Easing::Linear, 0, pan_end_y, cfg.display_ticks),
        }
    }

    /// Advance the slide by `dt` ticks.
    ///
    /// The current phase's tween drives the corresponding field; when the
    /// phase's duration elapses the slide moves to the next phase with a
    /// fresh timer, and on completing Exiting it becomes invisible and
    /// stops animating. Phases only ever move forward. A slide that is not
    /// animating is left untouched.
    pub fn update(&mut self, dt: u32)
        requires
            old(self).well_formed(),
        ensures
            final(self).well_formed(),
            advanced_by(*old(self), *final(self), dt as int),
            !old(self).is_animating ==> *final(self) == *old(self),
            rank(final(self).state) >= rank(old(self).state),
    {
        if !self.is_animating {
            return ;
        }
        match self.state {
            PushBoxState::Entering => {
                let mut t = self.tween_entering;
                let v = t.apply(dt);
                proof {
                    t.lemma_value_within_endpoints();
                }
                self.tween_entering = t;
                self.scale = self.initial_scale;
                self.position_x = v;
            },
            PushBoxState::ZoomingIn => {
                let mut t = self.tween_zooming_in;
                let v = t.apply(dt);
                proof {
                    t.lemma_value_within_endpoints();
                }
                self.tween_zooming_in = t;
                self.position_x = 500;
                self.position_y = 500;
                self.scale = v;
            },
            PushBoxState::Displaying => {
                let mut ts = self.tween_ken_burns_scale;
                let mut tx = self.tween_ken_burns_pan_x;
                let mut ty = self.tween_ken_burns_pan_y;
                let vs = ts.apply(dt);
                let vx = tx.apply(dt);
                let vy = ty.apply(dt);
                proof {
                    ts.lemma_value_within_endpoints();
                    tx.lemma_value_within_endpoints();
                    ty.lemma_value_within_endpoints();
                }
                self.tween_ken_burns_scale = ts;
                self.tween_ken_burns_pan_x = tx;
                self.tween_ken_burns_pan_y = ty;
                self.position_x = 500;
                self.position_y = 500;
                self.scale = self.final_scale;
                self.ken_burns_scale = vs;
                self.ken_burns_pan_x = vx;
                self.ken_burns_pan_y = vy;
            },
            PushBoxState::ZoomingOut => {
                let mut t = self.tween_zooming_out;
                let v = t.apply(dt);
                proof {
                    t.lemma_value_within_endpoints();
                }
                self.tween_zooming_out = t;
                self.position_x = 500;
                self.position_y = 500;
                self.scale = v;
            },
            PushBoxState::Exiting => {
                let mut t = self.tween_exiting;
                let v = t.apply(dt);
                proof {
                    t.lemma_value_within_endpoints();
                }
                self.tween_exiting = t;
                self.scale = self.initial_scale;
                self.position_x = v;
            },
        }
        let expected: u32 = if self.state == PushBoxState::Displaying {
            self.display_ticks
        } else {
            self.animation_ticks
        };
        let advanced: u64 = self.animation_timer as u64 + dt as u64;
        if advanced >= expected as u64 {
            self.animation_timer = 0;
            match self.state {
                PushBoxState::Entering => {
                    self.state = PushBoxState::ZoomingIn;
                },
                PushBoxState::ZoomingIn => {
                    self.state = PushBoxState::Displaying;
                },
                PushBoxState::Displaying => {
                    self.state = PushBoxState::ZoomingOut;
                },
                PushBoxState::ZoomingOut => {
                    self.state = PushBoxState::Exiting;
                },
                PushBoxState::Exiting => {
                    self.is_animating = false;
                    self.visible = false;
                },
            }
        } else {
            self.animation_timer = advanced as u32;
        }
    }

    /// What to draw for this slide, or nothing while it is hidden: the
    /// texture at its current position and scale, showing the Ken-Burns
    /// crop once the slide has reached the Displaying phase and the whole
    /// image before that.
    pub fn draw(&self, cfg: &Config) -> (cmd: Option<PushDrawCommand>)
        requires
            self.well_formed(),
            cfg.well_formed(),
        ensures
            cmd.is_some() == self.visible,
            cmd matches Some(c) ==> {
                &&& c.texture == self.texture
                &&& c.center_x == cfg.render_width * self.position_x
                &&& c.center_y == cfg.render_height * self.position_y
                &&& c.width == self.width * self.scale
                &&& c.height == self.height * self.scale
                &&& if rank(self.state) >= rank(PushBoxState::Displaying) {
                    &&& c.src_w == self.width * self.ken_burns_scale
                    &&& c.src_h == self.height * self.ken_burns_scale
                    &&& c.src_x == (self.width * 1000 - self.width * self.ken_burns_scale) / 2
                        + self.ken_burns_pan_x
                    &&& c.src_y == (self.height * 1000 - self.height * self.ken_burns_scale) / 2
                        + self.ken_burns_pan_y
                } else {
                    &&& c.src_x == 0
                    &&& c.src_y == 0
                    &&& c.src_w == self.width * 1000
                    &&& c.src_h == self.height * 1000
                }
            },
    {
        if !self.visible {
            return None;
        }
        let w: i64 = self.width as i64;
        let h: i64 = self.height as i64;
        assert(0 <= w * self.scale <= 16_384_000 && 0 <= h * self.scale <= 16_384_000)
            by (nonlinear_arith)
            requires
                0 < w <= 16384,
                0 < h <= 16384,
                0 <= self.scale <= 1000,
        ;
        assert(-25_000_000_000 <= (cfg.render_width as i64) * self.position_x <= 25_000_000_000
            && -25_000_000_000 <= (cfg.render_height as i64) * self.position_y
            <= 25_000_000_000) by (nonlinear_arith)
            requires
                0 < cfg.render_width <= 16384,
                0 < cfg.render_height <= 16384,
                -500 <= self.position_x <= 1500,
                self.position_y == 500,
        ;
        let center_x: i64 = (cfg.render_width as i64) * self.position_x;
        let center_y: i64 = (cfg.render_height as i64) * self.position_y;
        let width: i64 = w * self.scale;
        let height: i64 = h * self.scale;
        let in_crop = match self.state {
            PushBoxState::Displaying => true,
            PushBoxState::ZoomingOut => true,
            PushBoxState::Exiting => true,
            _ => false,
        };
        let (src_x, src_y, src_w, src_h): (i64, i64, i64, i64) = if in_crop {
            assert(0 <= w * self.ken_burns_scale <= w * 1000 && 0 <= h * self.ken_burns_scale <= h
                * 1000) by (nonlinear_arith)
                requires
                    0 < w <= 16384,
                    0 < h <= 16384,
                    700 <= self.ken_burns_scale <= 1000,
            ;
            let crop_w: i64 = w * self.ken_burns_scale;
            let crop_h: i64 = h * self.ken_burns_scale;
            let origin_x: i64 = (w * 1000 - crop_w) / 2;
            let origin_y: i64 = (h * 1000 - crop_h) / 2;
            proof {
                vstd::arithmetic::div_mod::lemma_div_pos_is_pos((w * 1000 - crop_w) as int, 2);
                vstd::arithmetic::div_mod::lemma_div_pos_is_pos((h * 1000 - crop_h) as int, 2);
                vstd::arithmetic::div_mod::lemma_div_is_ordered(
                    (w * 1000 - crop_w) as int,
                    16_384_000,
                    2,
                );
                vstd::arithmetic::div_mod::lemma_div_is_ordered(
                    (h * 1000 - crop_h) as int,
                    16_384_000,
                    2,
                );
            }
            (origin_x + self.ken_burns_pan_x, origin_y + self.ken_burns_pan_y, crop_w, crop_h)
        } else {
            (0, 0, w * 1000, h * 1000)
        };
        Some(
            PushDrawCommand {
                texture: self.texture,
                center_x,
                center_y,
                width,
                height,
                src_x,
                src_y,
                src_w,
                src_h,
            },
        )
    }

    /// A crop that was never steered toward a subject stays the full
    /// frame: with both endpoints at one, the crop scale tween reads
    /// exactly one at every clock.
    pub proof fn lemma_centered_crop_full(self)
        requires
            self.well_formed(),
            self.tween_ken_burns_scale.end == 1000,
        ensures
            self.tween_ken_burns_scale.value() == 1000,
    {
        self.tween_ken_burns_scale.lemma_value_within_endpoints();
    }

    /// The Ken-Burns crop scale never leaves `[0.7, 1.0]`: the crop may
    /// zoom toward the subject but never past the clamp, and never grows
    /// beyond the full image.
    pub proof fn lemma_ken_burns_scale_in_range(self)
        requires
            self.well_formed(),
        ensures
            700 <= self.ken_burns_scale <= 1000,
            700 <= self.tween_ken_burns_scale.value() <= 1000,
    {
        self.tween_ken_burns_scale.lemma_value_within_endpoints();
    }
}

} // verus!
