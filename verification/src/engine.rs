//! The reveal-and-scatter orchestrator: the state machine shared by the
//! linear and spiral shows.
//!
//! Slides are revealed one at a time in index order; each is shown
//! prominently for the display duration, then animated to its background
//! target; once all are scattered, they are hidden one by one in reverse
//! index order, one per cleanup interval. The machine advances in whole
//! ticks, one per output frame, so the number of frames produced until the
//! Finished phase is an exact function of the slide count and the three
//! durations.

use vstd::prelude::*;
use crate::config::Config;
use crate::random::random_in_range;
use crate::slide::Slide;
use crate::state::SlideshowState;
use crate::transform::Transform;

verus! {

/// Largest number of slides one show may hold.
pub const MAX_SLIDES: usize = 1_000_000;

/// Frames a show of `n` slides produces before it is finished.
pub open spec fn total_frames(n: int, cfg: Config) -> int {
    n * (cfg.display_ticks + cfg.animation_ticks + cfg.cleanup_ticks)
}

/// The state machine driving a reveal-and-scatter show.
pub struct ShowEngine {
    /// The slides, in reveal order; index-addressed, never reordered.
    pub slides: Vec<Slide>,
    /// The run's configuration; fixed after construction.
    pub cfg: Config,
    /// Current phase.
    pub state: SlideshowState,
    /// Index of the slide being revealed; equals the slide count from the
    /// Cleanup phase on.
    pub current_slide_index: usize,
    /// Ticks spent in the current Displaying phase.
    pub display_timer: u32,
    /// Ticks since the last cleanup step.
    pub cleanup_timer: u32,
    /// Index of the next slide the cleanup phase will hide.
    pub cleanup_index: usize,
    /// Frames produced so far.
    pub frames: u64,
}

impl ShowEngine {
    /// Ticks one slide occupies before cleanup: its display phase plus its
    /// transition animation.
    pub open spec fn slot_ticks(self) -> int {
        self.cfg.display_ticks + self.cfg.animation_ticks
    }

    /// Every slide is well formed, shares the run's animation duration, and
    /// the count is within bounds.
    pub open spec fn slides_ok(self) -> bool {
        &&& self.slides.len() <= MAX_SLIDES
        &&& forall|i: int|
            0 <= i < self.slides.len() ==> (#[trigger] self.slides[i]).well_formed()
        &&& forall|i: int|
            0 <= i < self.slides.len() ==> (#[trigger] self.slides[i]).animation_ticks
                == self.cfg.animation_ticks
    }

    /// Frames the machine must have produced to stand where it stands: the
    /// phase formula the frame counter is held to.
    pub open spec fn phase_frames(self) -> int {
        match self.state {
            SlideshowState::Displaying => self.current_slide_index * self.slot_ticks()
                + self.display_timer,
            SlideshowState::Transitioning => self.current_slide_index * self.slot_ticks()
                + self.cfg.display_ticks + self.slides[self.current_slide_index as int].timer(),
            SlideshowState::Cleanup => self.slides.len() * self.slot_ticks() + (self.slides.len()
                - 1 - self.cleanup_index) * self.cfg.cleanup_ticks + self.cleanup_timer,
            SlideshowState::Finished => total_frames(self.slides.len() as int, self.cfg),
        }
    }

    /// The machine's invariant, preserved by every tick.
    pub open spec fn well_formed(self) -> bool {
        &&& self.cfg.well_formed()
        &&& self.slides_ok()
        &&& self.slides.len() >= 1
        &&& self.frames == self.phase_frames()
        &&& forall|i: int|
            0 <= i < self.current_slide_index ==> !(#[trigger] self.slides[i]).is_animating
                && self.slides[i].transform == self.slides[i].end
        &&& match self.state {
            SlideshowState::Displaying => {
                &&& self.current_slide_index < self.slides.len()
                &&& self.display_timer < self.cfg.display_ticks
                &&& forall|i: int|
                    0 <= i < self.slides.len() ==> !(#[trigger] self.slides[i]).is_animating
                &&& forall|i: int|
                    0 <= i < self.slides.len() ==> (#[trigger] self.slides[i]).visible
            },
            SlideshowState::Transitioning => {
                &&& self.current_slide_index < self.slides.len()
                &&& self.slides[self.current_slide_index as int].is_animating
                &&& self.slides[self.current_slide_index as int].timer()
                    < self.cfg.animation_ticks
                &&& forall|i: int|
                    0 <= i < self.slides.len() && i != self.current_slide_index ==> !(
                    #[trigger] self.slides[i]).is_animating
                &&& forall|i: int|
                    0 <= i < self.slides.len() ==> (#[trigger] self.slides[i]).visible
            },
            SlideshowState::Cleanup => {
                &&& self.current_slide_index == self.slides.len()
                &&& self.cleanup_index < self.slides.len()
                &&& self.cleanup_timer < self.cfg.cleanup_ticks
                &&& forall|i: int|
                    0 <= i < self.slides.len() ==> !(#[trigger] self.slides[i]).is_animating
                &&& forall|i: int|
                    0 <= i < self.slides.len() ==> ((#[trigger] self.slides[i]).visible <==> i
                        <= self.cleanup_index)
            },
            SlideshowState::Finished => {
                &&& self.current_slide_index == self.slides.len()
                &&& forall|i: int|
                    0 <= i < self.slides.len() ==> !(#[trigger] self.slides[i]).is_animating
                &&& forall|i: int|
                    0 <= i < self.slides.len() ==> !(#[trigger] self.slides[i]).visible
            },
        }
    }

    /// The state the engine is filled in: no frame produced yet, every
    /// slide visible, still, and waiting in reveal order.
    pub open spec fn loading(self) -> bool {
        &&& self.cfg.well_formed()
        &&& self.slides_ok()
        &&& self.state == SlideshowState::Displaying
        &&& self.current_slide_index == 0
        &&& self.display_timer == 0
        &&& self.cleanup_timer == 0
        &&& self.frames == 0
        &&& forall|i: int|
            0 <= i < self.slides.len() ==> !(#[trigger] self.slides[i]).is_animating
        &&& forall|i: int|
            0 <= i < self.slides.len() ==> (#[trigger] self.slides[i]).visible
    }

    /// An empty show in its initial phase.
    pub fn new(cfg: Config) -> (e: ShowEngine)
        requires
            cfg.well_formed(),
        ensures
            e.loading(),
            e.cfg == cfg,
            e.slides.len() == 0,
    {
        ShowEngine {
            slides: Vec::new(),
            cfg,
            state: SlideshowState::Displaying,
            current_slide_index: 0,
            display_timer: 0,
            cleanup_timer: 0,
            cleanup_index: 0,
            frames: 0,
        }
    }

    /// Append a slide to the reveal order.
    pub fn add_slide(&mut self, s: Slide)
        requires
            old(self).loading(),
            old(self).slides.len() < MAX_SLIDES,
            s.well_formed(),
            !s.is_animating,
            s.visible,
            s.animation_ticks == old(self).cfg.animation_ticks,
        ensures
            final(self).loading(),
            final(self).cfg == old(self).cfg,
            final(self).slides@ == old(self).slides@.push(s),
    {
        self.slides.push(s);
    }

    /// Close the loading phase. Returns whether any slide was added; with at
    /// least one slide the machine stands ready to tick.
    pub fn initialize(&mut self) -> (ready: bool)
        requires
            old(self).loading(),
        ensures
            ready == (old(self).slides.len() > 0),
            final(self).slides == old(self).slides,
            final(self).cfg == old(self).cfg,
            final(self).frames == 0,
            ready ==> final(self).well_formed(),
            ready ==> final(self).state == SlideshowState::Displaying,
            ready ==> final(self).current_slide_index == 0,
    {
        if self.slides.len() > 0 {
            self.cleanup_index = self.slides.len() - 1;
            true
        } else {
            false
        }
    }

    /// Frame counts stay within the run's exact total, which itself fits
    /// comfortably in 64 bits.
    pub proof fn lemma_frames_bounded(self)
        requires
            self.well_formed(),
        ensures
            self.frames <= total_frames(self.slides.len() as int, self.cfg),
            total_frames(self.slides.len() as int, self.cfg) <= 6_000_000_000_000,
    {
        let n = self.slides.len() as int;
        let d = self.cfg.display_ticks as int;
        let a = self.cfg.animation_ticks as int;
        let c = self.cfg.cleanup_ticks as int;
        assert(n * (d + a + c) <= 6_000_000_000_000) by (nonlinear_arith)
            requires
                0 <= n <= 1_000_000,
                0 < d <= 2_000_000,
                0 < a <= 2_000_000,
                0 < c <= 2_000_000,
        ;
        match self.state {
            SlideshowState::Displaying => {
                let cur = self.current_slide_index as int;
                assert(cur * (d + a) + d <= n * (d + a + c)) by (nonlinear_arith)
                    requires
                        0 <= cur < n,
                        0 < d,
                        0 < a,
                        0 < c,
                ;
            },
            SlideshowState::Transitioning => {
                let cur = self.current_slide_index as int;
                assert(cur * (d + a) + d + a <= n * (d + a + c)) by (nonlinear_arith)
                    requires
                        0 <= cur < n,
                        0 < d,
                        0 < a,
                        0 < c,
                ;
            },
            SlideshowState::Cleanup => {
                let ci = self.cleanup_index as int;
                assert(n * (d + a) + (n - 1 - ci) * c + c <= n * (d + a + c))
                    by (nonlinear_arith)
                    requires
                        0 <= ci < n,
                        0 < c,
                ;
            },
            SlideshowState::Finished => {},
        }
    }

    /// Advance the show by one tick.
    ///
    /// Returns whether a frame was produced; once the machine stands in the
    /// Finished phase it produces nothing and changes nothing. A produced
    /// frame advances the frame counter by exactly one; a cleanup step that
    /// crosses the interval hides exactly the slide at the cleanup index and
    /// no other visibility changes.
    pub fn tick(&mut self) -> (produced: bool)
        requires
            old(self).well_formed(),
        ensures
            final(self).well_formed(),
            produced == (old(self).state != SlideshowState::Finished),
            !produced ==> *final(self) == *old(self),
            produced ==> final(self).frames == old(self).frames + 1,
            final(self).slides.len() == old(self).slides.len(),
            final(self).cfg == old(self).cfg,
            final(self).state == SlideshowState::Finished ==> final(self).frames == total_frames(
                old(self).slides.len() as int,
                old(self).cfg,
            ),
            forall|i: int|
                0 <= i < old(self).slides.len() && !(old(self).state == SlideshowState::Cleanup
                    && old(self).cleanup_timer + 1 >= old(self).cfg.cleanup_ticks && i == old(
                    self,
                ).cleanup_index) ==> (#[trigger] final(self).slides[i]).visible == old(
                self,
            ).slides[i].visible,
            old(self).state == SlideshowState::Cleanup && old(self).cleanup_timer + 1 >= old(
                self,
            ).cfg.cleanup_ticks ==> {
                &&& !final(self).slides[old(self).cleanup_index as int].visible
                &&& old(self).cleanup_index > 0 ==> final(self).state == SlideshowState::Cleanup
                    && final(self).cleanup_index == old(self).cleanup_index - 1
                &&& old(self).cleanup_index == 0 ==> final(self).state == SlideshowState::Finished
            },
    {
        proof {
            self.lemma_frames_bounded();
        }
        match self.state {
            SlideshowState::Finished => {
                return false;
            },
            SlideshowState::Displaying => {
                self.display_timer = self.display_timer + 1;
                if self.display_timer >= self.cfg.display_ticks {
                    let idx = self.current_slide_index;
                    let mut s = self.slides[idx];
                    s.start_background_animation();
                    self.slides.set(idx, s);
                    self.state = SlideshowState::Transitioning;
                }
            },
            SlideshowState::Transitioning => {
                let idx = self.current_slide_index;
                let mut s = self.slides[idx];
                s.update(1);
                self.slides.set(idx, s);
                if !s.is_animating {
                    self.current_slide_index = idx + 1;
                    if self.current_slide_index >= self.slides.len() {
                        self.state = SlideshowState::Cleanup;
                        self.cleanup_index = self.slides.len() - 1;
                        self.cleanup_timer = 0;
                        proof {
                            let n = self.slides.len() as int;
                            let st = self.slot_ticks();
                            assert(n * st == (n - 1) * st + st) by (nonlinear_arith);
                        }
                    } else {
                        self.state = SlideshowState::Displaying;
                        self.display_timer = 0;
                        proof {
                            let cur = self.current_slide_index as int;
                            let st = self.slot_ticks();
                            assert(cur * st == (cur - 1) * st + st) by (nonlinear_arith);
                        }
                    }
                }
            },
            SlideshowState::Cleanup => {
                self.cleanup_timer = self.cleanup_timer + 1;
                if self.cleanup_timer >= self.cfg.cleanup_ticks {
                    let idx = self.cleanup_index;
                    let mut s = self.slides[idx];
                    s.visible = false;
                    self.slides.set(idx, s);
                    if self.cleanup_index > 0 {
                        self.cleanup_index = self.cleanup_index - 1;
                        self.cleanup_timer = 0;
                        proof {
                            let n = self.slides.len() as int;
                            let c = self.cfg.cleanup_ticks as int;
                            let ci = idx as int;
                            assert((n - 1 - (ci - 1)) * c == (n - 1 - ci) * c + c)
                                by (nonlinear_arith);
                        }
                    } else {
                        self.state = SlideshowState::Finished;
                        proof {
                            let n = self.slides.len() as int;
                            let d = self.cfg.display_ticks as int;
                            let a = self.cfg.animation_ticks as int;
                            let c = self.cfg.cleanup_ticks as int;
                            assert(n * (d + a) + (n - 1) * c + c == n * (d + a + c))
                                by (nonlinear_arith);
                        }
                    }
                }
            },
        }
        proof {
            match self.state {
                SlideshowState::Displaying => {
                    assert(self.frames + 1 == self.phase_frames());
                },
                SlideshowState::Transitioning => {
                    assert(self.frames + 1 == self.phase_frames());
                },
                SlideshowState::Cleanup => {
                    assert(self.frames + 1 == self.phase_frames());
                },
                SlideshowState::Finished => {
                    assert(self.frames + 1 == self.phase_frames());
                },
            }
        }
        self.frames = self.frames + 1;
        true
    }

    /// The total frame count of a show is exact: when the machine stands in
    /// the Finished phase, the frames produced are precisely the slide count
    /// times the sum of the display, animation and cleanup durations — one
    /// display phase, one transition and one cleanup step per slide.
    pub proof fn lemma_finished_frame_count(self)
        requires
            self.well_formed(),
            self.state == SlideshowState::Finished,
        ensures
            self.frames == total_frames(self.slides.len() as int, self.cfg),
    {
    }

    /// Whether the show has produced its last frame.
    pub fn is_finished(&self) -> (r: bool)
        ensures
            r == (self.state == SlideshowState::Finished),
    {
        self.state == SlideshowState::Finished
    }

    /// The draw rule of the show: a slide is rendered when it is visible and
    /// either already scattered (index below the current one) or the slide
    /// currently being displayed or transitioned. Later slides are never
    /// drawn.
    pub open spec fn drawable(self, i: int) -> bool {
        &&& 0 <= i < self.slides.len()
        &&& self.slides[i].visible
        &&& (i < self.current_slide_index || (i == self.current_slide_index && (self.state
            == SlideshowState::Displaying || self.state == SlideshowState::Transitioning)))
    }

    /// Indices of the slides to render this tick, in ascending order: every
    /// drawable slide exactly once, nothing else.
    pub fn draw_order(&self) -> (order: Vec<usize>)
        requires
            self.well_formed(),
        ensures
            forall|p: int| 0 <= p < order.len() ==> self.drawable(#[trigger] order[p] as int),
            forall|p: int, q: int| 0 <= p < q < order.len() ==> order[p] < order[q],
            forall|i: int|
                #[trigger] self.drawable(i) ==> exists|p: int|
                    0 <= p < order.len() && #[trigger] order[p] as int == i,
    {
        let mut order: Vec<usize> = Vec::new();
        let mut i: usize = 0;
        let in_show = self.state == SlideshowState::Displaying || self.state
            == SlideshowState::Transitioning;
        while i < self.slides.len()
            invariant
                self.well_formed(),
                i <= self.slides.len(),
                in_show == (self.state == SlideshowState::Displaying || self.state
                    == SlideshowState::Transitioning),
                forall|p: int| 0 <= p < order.len() ==> self.drawable(#[trigger] order[p] as int),
                forall|p: int| 0 <= p < order.len() ==> #[trigger] order[p] < i,
                forall|p: int, q: int| 0 <= p < q < order.len() ==> order[p] < order[q],
                forall|k: int|
                    0 <= k < i && #[trigger] self.drawable(k) ==> exists|p: int|
                        0 <= p < order.len() && #[trigger] order[p] as int == k,
            decreases self.slides.len() - i,
        {
            let eligible = i < self.current_slide_index || (i == self.current_slide_index
                && in_show);
            let ghost prev = order@;
            if eligible && self.slides[i].visible {
                order.push(i);
            }
            proof {
                assert forall|k: int| 0 <= k < i + 1 && #[trigger] self.drawable(k) implies
                    exists|p: int| 0 <= p < order.len() && #[trigger] order[p] as int == k by {
                    if k == i {
                        assert(order[prev.len() as int] as int == k);
                    } else {
                        let p = choose|p: int| 0 <= p < prev.len() && #[trigger] prev[p] as int
                            == k;
                        assert(order[p] as int == k);
                    }
                }
            }
            i = i + 1;
        }
        order
    }
}

/// A pseudo-random scattered background pose: position within the inner 90%
/// of the frame, scale between 20% and 30% of the prominent scale, rotation
/// within fifteen degrees either way.
pub fn random_scatter_target(prominent_scale: i64) -> (t: Transform)
    requires
        0 <= prominent_scale <= 1000,
    ensures
        t.well_formed(),
        50 <= t.x < 950,
        50 <= t.y < 950,
        -15000 <= t.rotation < 15000,
        exists|f: int| 200 <= f < 300 && t.scale == #[trigger] scatter_scale(
            prominent_scale as int,
            f,
        ),
        0 <= t.scale <= 300,
{
    let x = random_in_range(50, 950);
    let y = random_in_range(50, 950);
    let f = random_in_range(200, 300);
    let rotation = random_in_range(-15000, 15000);
    assert(0 <= prominent_scale * f <= 300_000) by (nonlinear_arith)
        requires
            0 <= prominent_scale <= 1000,
            200 <= f < 300,
    ;
    let scaled: i64 = prominent_scale * f;
    let scale: i64 = scaled / 1000;
    proof {
        vstd::arithmetic::div_mod::lemma_div_pos_is_pos(scaled as int, 1000);
        vstd::arithmetic::div_mod::lemma_div_is_ordered(scaled as int, 300_000, 1000);
        assert(scale == scatter_scale(prominent_scale as int, f as int));
    }
    Transform { x, y, scale, rotation }
}

/// The scale of a scatter target: the prominent scale times a drawn factor,
/// on the fixed-point grid.
pub open spec fn scatter_scale(prominent: int, f: int) -> int {
    prominent * f / 1000
}

/// The linear orchestrator: reveal in index order, scatter each slide to a
/// pseudo-random background pose, then clean up in reverse order.
pub struct LinearEngine {
    /// The underlying show machine.
    pub show: ShowEngine,
}

impl LinearEngine {
    /// An empty linear show.
    pub fn new(cfg: Config) -> (e: LinearEngine)
        requires
            cfg.well_formed(),
        ensures
            e.show.loading(),
            e.show.cfg == cfg,
            e.show.slides.len() == 0,
    {
        LinearEngine { show: ShowEngine::new(cfg) }
    }

    /// Add one image: the slide starts in its prominent pose and is given a
    /// pseudo-random scattered background target.
    pub fn add_image(&mut self, texture: usize, width: u32, height: u32)
        requires
            old(self).show.loading(),
            old(self).show.slides.len() < MAX_SLIDES,
            1 <= width <= crate::config::MAX_DIMENSION,
            1 <= height <= crate::config::MAX_DIMENSION,
        ensures
            final(self).show.loading(),
            final(self).show.cfg == old(self).show.cfg,
            final(self).show.slides.len() == old(self).show.slides.len() + 1,
            forall|i: int|
                0 <= i < old(self).show.slides.len() ==> final(self).show.slides[i] == old(
                    self,
                ).show.slides[i],
            ({
                let s = final(self).show.slides[old(self).show.slides.len() as int];
                &&& s.texture == texture
                &&& s.width == width
                &&& s.height == height
                &&& s.transform == crate::transform::prominent_transform_spec(
                    width as int,
                    height as int,
                    old(self).show.cfg,
                )
                &&& 50 <= s.end.x < 950
                &&& 50 <= s.end.y < 950
                &&& -15000 <= s.end.rotation < 15000
                &&& 0 <= s.end.scale <= 300
                &&& exists|f: int|
                    200 <= f < 300 && s.end.scale == #[trigger] scatter_scale(
                        crate::transform::prominent_scale_spec(
                            width as int,
                            height as int,
                            old(self).show.cfg,
                        ),
                        f,
                    )
            }),
    {
        let cfg = self.show.cfg;
        let mut s = Slide::new(texture, width, height, &cfg);
        let ghost prominent = s.transform.scale as int;
        let target = random_scatter_target(s.transform.scale);
        proof {
            let fw = choose|f: int|
                200 <= f < 300 && target.scale == #[trigger] scatter_scale(prominent, f);
            assert(prominent == crate::transform::prominent_scale_spec(
                width as int,
                height as int,
                cfg,
            ));
            assert(target.scale == scatter_scale(
                crate::transform::prominent_scale_spec(width as int, height as int, cfg),
                fw,
            ));
        }
        s.set_final_position(target);
        self.show.add_slide(s);
    }

    /// Close the loading phase; see `ShowEngine::initialize`.
    pub fn initialize(&mut self) -> (ready: bool)
        requires
            old(self).show.loading(),
        ensures
            ready == (old(self).show.slides.len() > 0),
            final(self).show.slides == old(self).show.slides,
            final(self).show.cfg == old(self).show.cfg,
            final(self).show.frames == 0,
            ready ==> final(self).show.well_formed(),
            ready ==> final(self).show.state == SlideshowState::Displaying,
            ready ==> final(self).show.current_slide_index == 0,
    {
        self.show.initialize()
    }

    /// Advance the show by one tick; see `ShowEngine::tick`. Returns whether
    /// a frame was produced; once finished, nothing is produced and nothing
    /// changes.
    pub fn render_frame(&mut self) -> (produced: bool)
        requires
            old(self).show.well_formed(),
        ensures
            final(self).show.well_formed(),
            produced == (old(self).show.state != SlideshowState::Finished),
            produced ==> final(self).show.frames == old(self).show.frames + 1,
            !produced ==> final(self).show == old(self).show,
            final(self).show.state == SlideshowState::Finished ==> final(self).show.frames
                == total_frames(old(self).show.slides.len() as int, old(self).show.cfg),
            final(self).show.slides.len() == old(self).show.slides.len(),
            final(self).show.cfg == old(self).show.cfg,
            forall|i: int|
                0 <= i < old(self).show.slides.len() && !(old(self).show.state
                    == SlideshowState::Cleanup && old(self).show.cleanup_timer + 1 >= old(
                    self,
                ).show.cfg.cleanup_ticks && i == old(self).show.cleanup_index) ==> (
                #[trigger] final(self).show.slides[i]).visible == old(self).show.slides[i].visible,
            old(self).show.state == SlideshowState::Cleanup && old(self).show.cleanup_timer + 1
                >= old(self).show.cfg.cleanup_ticks ==> {
                &&& !final(self).show.slides[old(self).show.cleanup_index as int].visible
                &&& old(self).show.cleanup_index > 0 ==> final(self).show.state
                    == SlideshowState::Cleanup && final(self).show.cleanup_index == old(
                    self,
                ).show.cleanup_index - 1
                &&& old(self).show.cleanup_index == 0 ==> final(self).show.state
                    == SlideshowState::Finished
            },
    {
        self.show.tick()
    }
}

} // verus!
