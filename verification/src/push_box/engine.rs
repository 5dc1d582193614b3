//! The push-box orchestrator: one slide is active at a time; only it and
//! its immediate neighbors are advanced each tick, so per-tick work stays
//! bounded. When the active slide passes from ZoomingOut to Exiting, the
//! next slide is activated and the index moves forward. The run is over
//! when none of the tracked slides is mid-animation.

use vstd::prelude::*;
use crate::config::{Config, MAX_DIMENSION};
use crate::detect::{merge_detections, merged_box_rec, Detection};
use crate::engine::MAX_SLIDES;
use crate::push_box::slide::{ken_burns_end_pan, ken_burns_end_scale, Slide};
use crate::push_box::state::PushBoxState;

verus! {

/// The push-box carousel.
pub struct PushBoxEngine {
    /// The slides, in play order.
    pub slides: Vec<Slide>,
    /// Index of the active slide.
    pub current_slide_index: usize,
    /// The run's configuration.
    pub cfg: Config,
}

impl PushBoxEngine {
    /// A slide that has not been started: waiting at the left edge,
    /// hidden, still.
    pub open spec fn fresh(s: Slide) -> bool {
        &&& s.state == PushBoxState::Entering
        &&& !s.visible
        &&& !s.is_animating
    }

    /// Every slide is well formed and runs on the configured durations.
    pub open spec fn slides_ok(self) -> bool {
        &&& self.cfg.well_formed()
        &&& self.slides.len() <= MAX_SLIDES
        &&& forall|i: int|
            0 <= i < self.slides.len() ==> (#[trigger] self.slides[i]).well_formed()
        &&& forall|i: int|
            0 <= i < self.slides.len() ==> (#[trigger] self.slides[i]).animation_ticks
                == self.cfg.animation_ticks && self.slides[i].display_ticks
                == self.cfg.display_ticks
    }

    /// The engine while slides are being added: nothing started yet.
    pub open spec fn loading(self) -> bool {
        &&& self.slides_ok()
        &&& self.current_slide_index == 0
        &&& forall|i: int| 0 <= i < self.slides.len() ==> Self::fresh(#[trigger] self.slides[i])
    }

    /// The engine's invariant while running: the active index is in
    /// bounds, every passed slide has reached its terminal phase, every
    /// upcoming slide has not been started, and at most the active slide
    /// and the one just pushed out are still animating — the pushed-out
    /// one only while the active slide is still entering, on the same
    /// clock.
    pub open spec fn well_formed(self) -> bool {
        &&& self.slides_ok()
        &&& self.slides.len() >= 1
        &&& self.current_slide_index < self.slides.len()
        &&& forall|i: int|
            0 <= i < self.current_slide_index ==> (#[trigger] self.slides[i]).state
                == PushBoxState::Exiting
        &&& forall|i: int|
            self.current_slide_index < i < self.slides.len() ==> Self::fresh(
                #[trigger] self.slides[i],
            )
        &&& forall|i: int|
            0 <= i < self.current_slide_index - 1 ==> !(#[trigger] self.slides[i]).is_animating
        &&& (self.current_slide_index >= 1 && self.slides[self.current_slide_index - 1].is_animating)
            ==> {
            let active = self.slides[self.current_slide_index as int];
            let leaving = self.slides[self.current_slide_index - 1];
            &&& active.state == PushBoxState::Entering
            &&& active.is_animating
            &&& leaving.animation_timer == active.animation_timer
        }
    }

    /// At most two slides are ever animating at once, and then they are
    /// the active slide and its immediate predecessor: the one pushing in
    /// and the one being pushed out.
    pub proof fn lemma_bounded_animation(self, i: int, j: int)
        requires
            self.well_formed(),
            0 <= i < j < self.slides.len(),
            self.slides[i].is_animating,
            self.slides[j].is_animating,
        ensures
            j == self.current_slide_index,
            i + 1 == j,
    {
    }

    /// An empty carousel.
    pub fn new(cfg: Config) -> (e: PushBoxEngine)
        requires
            cfg.well_formed(),
        ensures
            e.loading(),
            e.cfg == cfg,
            e.slides.len() == 0,
    {
        PushBoxEngine { slides: Vec::new(), current_slide_index: 0, cfg }
    }

    /// Add one image together with the subject detections reported for it.
    /// The detections whose confidence clears the threshold are merged into
    /// one subject box whose size sets the slide's Ken-Burns crop scale and
    /// whose centroid sets its pan targets; without a qualifying detection
    /// the crop stays centered on the full image.
    pub fn add_image(&mut self, texture: usize, width: u32, height: u32, detections: &Vec<
        Detection,
    >)
        requires
            old(self).loading(),
            old(self).slides.len() < MAX_SLIDES,
            1 <= width <= MAX_DIMENSION,
            1 <= height <= MAX_DIMENSION,
            forall|i: int|
                0 <= i < detections.len() ==> (#[trigger] detections[i]).well_formed()
                    && detections[i].x_max <= width && detections[i].y_max <= height,
        ensures
            final(self).loading(),
            final(self).cfg == old(self).cfg,
            final(self).slides.len() == old(self).slides.len() + 1,
            forall|i: int|
                0 <= i < old(self).slides.len() ==> final(self).slides[i] == old(self).slides[i],
            ({
                let s = final(self).slides[old(self).slides.len() as int];
                &&& s.texture == texture
                &&& s.width == width
                &&& s.height == height
                &&& (forall|i: int|
                    0 <= i < detections.len() ==> !(#[trigger] detections[i]).qualifying()) ==> {
                    &&& s.tween_ken_burns_scale.end == 1000
                    &&& s.tween_ken_burns_pan_x.end == 0
                    &&& s.tween_ken_burns_pan_y.end == 0
                }
                &&& merged_box_rec(detections@) is None ==> {
                    &&& s.tween_ken_burns_scale.end == 1000
                    &&& s.tween_ken_burns_pan_x.end == 0
                    &&& s.tween_ken_burns_pan_y.end == 0
                }
                &&& merged_box_rec(detections@) matches Some(b) ==> (if b.x_max > b.x_min
                    && b.y_max > b.y_min {
                    let size = if b.x_max - b.x_min > b.y_max - b.y_min {
                        b.x_max - b.x_min
                    } else {
                        b.y_max - b.y_min
                    };
                    let image_size = if width > height {
                        width as int
                    } else {
                        height as int
                    };
                    &&& s.tween_ken_burns_scale.end == ken_burns_end_scale(size, image_size)
                    &&& s.tween_ken_burns_pan_x.end == ken_burns_end_pan(
                        b.x_min as int,
                        (b.x_max - b.x_min) as int,
                        width as int,
                    )
                    &&& s.tween_ken_burns_pan_y.end == ken_burns_end_pan(
                        b.y_min as int,
                        (b.y_max - b.y_min) as int,
                        height as int,
                    )
                } else {
                    &&& s.tween_ken_burns_scale.end == 1000
                    &&& s.tween_ken_burns_pan_x.end == 0
                    &&& s.tween_ken_burns_pan_y.end == 0
                })
            }),
    {
        let cfg = self.cfg;
        let merged = merge_detections(detections);
        let s = Slide::new(texture, width, height, merged, &cfg);
        self.slides.push(s);
    }

    /// Start the carousel. Returns whether any slide was added; with at
    /// least one, the first slide is made visible and set animating.
    pub fn initialize(&mut self) -> (ready: bool)
        requires
            old(self).loading(),
        ensures
            ready == (old(self).slides.len() > 0),
            final(self).cfg == old(self).cfg,
            final(self).slides.len() == old(self).slides.len(),
            ready ==> final(self).well_formed(),
            ready ==> final(self).current_slide_index == 0,
            ready ==> final(self).slides[0].visible && final(self).slides[0].is_animating,
    {
        if self.slides.len() == 0 {
            return false;
        }
        let mut s = self.slides[0];
        s.visible = true;
        s.is_animating = true;
        self.slides.set(0, s);
        true
    }

    /// Advance the carousel by one tick.
    ///
    /// Only the active slide and its immediate neighbors are updated. When
    /// the active slide passes from ZoomingOut to Exiting, the next slide
    /// (if any) is activated and the index moves forward. Returns whether
    /// the carousel is still animating; once no tracked slide is
    /// mid-animation, it reports completion.
    pub fn render_frame(&mut self) -> (animating: bool)
        requires
            old(self).well_formed(),
        ensures
            final(self).well_formed(),
            final(self).cfg == old(self).cfg,
            final(self).slides.len() == old(self).slides.len(),
            forall|i: int|
                0 <= i < old(self).slides.len() && (i < old(self).current_slide_index - 1 || i
                    > old(self).current_slide_index + 1) ==> final(self).slides[i] == old(
                    self,
                ).slides[i],
            ({
                let cur = old(self).current_slide_index as int;
                let n = old(self).slides.len() as int;
                let s = old(self).slides[cur];
                let transition = s.is_animating && s.state == PushBoxState::ZoomingOut
                    && s.animation_timer + 1 >= s.animation_ticks;
                &&& (transition && cur + 1 < n) ==> {
                    &&& final(self).current_slide_index == cur + 1
                    &&& final(self).slides[cur + 1].visible
                    &&& final(self).slides[cur + 1].is_animating
                }
                &&& !(transition && cur + 1 < n) ==> final(self).current_slide_index == cur
                &&& animating == (transition || final(self).slides[cur].is_animating || (cur > 0
                    && final(self).slides[cur - 1].is_animating))
                &&& crate::push_box::slide::advanced_by(
                    old(self).slides[cur],
                    final(self).slides[cur],
                    1,
                )
                &&& cur > 0 ==> crate::push_box::slide::advanced_by(
                    old(self).slides[cur - 1],
                    final(self).slides[cur - 1],
                    1,
                )
                &&& (cur + 1 < n && !transition) ==> crate::push_box::slide::advanced_by(
                    old(self).slides[cur + 1],
                    final(self).slides[cur + 1],
                    1,
                )
                &&& (transition && cur + 1 < n) ==> final(self).slides[cur + 1] == (Slide {
                    visible: true,
                    is_animating: true,
                    ..old(self).slides[cur + 1]
                })
            }),
    {
        let cur = self.current_slide_index;
        let n = self.slides.len();
        let state_before = self.slides[cur].state;
        let mut active = self.slides[cur];
        active.update(1);
        self.slides.set(cur, active);
        let state_after = active.state;
        let transition = state_before == PushBoxState::ZoomingOut && state_after
            == PushBoxState::Exiting;
        let mut animating = transition || active.is_animating;
        if cur > 0 {
            let mut prev = self.slides[cur - 1];
            prev.update(1);
            self.slides.set(cur - 1, prev);
            animating = animating || prev.is_animating;
        }
        if cur + 1 < n {
            let mut next = self.slides[cur + 1];
            next.update(1);
            self.slides.set(cur + 1, next);
            animating = animating || next.is_animating;
        }
        if !animating {
            return false;
        }
        if transition && cur + 1 < n {
            self.current_slide_index = cur + 1;
            let mut next = self.slides[cur + 1];
            next.visible = true;
            next.is_animating = true;
            self.slides.set(cur + 1, next);
        }
        true
    }

    /// Indices of the slides to render this tick, in ascending order: the
    /// visible slides, each exactly once.
    pub fn draw_order(&self) -> (order: Vec<usize>)
        ensures
            forall|p: int|
                0 <= p < order.len() ==> order[p] < self.slides.len() && self.slides[
                    #[trigger] order[p] as int
                ].visible,
            forall|p: int, q: int| 0 <= p < q < order.len() ==> order[p] < order[q],
            forall|i: int|
                0 <= i < self.slides.len() && (#[trigger] self.slides[i]).visible ==> exists|
                    p: int,
                |
                    0 <= p < order.len() && #[trigger] order[p] as int == i,
    {
        let mut order: Vec<usize> = Vec::new();
        let mut i: usize = 0;
        while i < self.slides.len()
            invariant
                i <= self.slides.len(),
                forall|p: int|
                    0 <= p < order.len() ==> order[p] < self.slides.len() && self.slides[
                        #[trigger] order[p] as int
                    ].visible,
                forall|p: int| 0 <= p < order.len() ==> #[trigger] order[p] < i,
                forall|p: int, q: int| 0 <= p < q < order.len() ==> order[p] < order[q],
                forall|k: int|
                    0 <= k < i && (#[trigger] self.slides[k]).visible ==> exists|p: int|
                        0 <= p < order.len() && #[trigger] order[p] as int == k,
            decreases self.slides.len() - i,
        {
            let ghost prev = order@;
            if self.slides[i].visible {
                order.push(i);
            }
            proof {
                assert forall|k: int| 0 <= k < i + 1 && (#[trigger] self.slides[k]).visible
                    implies exists|p: int| 0 <= p < order.len() && #[trigger] order[p] as int
                    == k by {
                    if k == i {
                        assert(order[prev.len() as int] as int == k);
                    } else {
                        let p = choose|p: int| 0 <= p < prev.len() && #[trigger] prev[p] as int
                            == k;
                        assert(order[p] as int == k);
                    }
                }
            }
            i = i + 1;
        }
        order
    }
}

} // verus!
