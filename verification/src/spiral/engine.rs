//! The spiral orchestrator: the shared reveal-and-scatter machine with
//! slide targets taken from the spiral grid layout.

use vstd::prelude::*;
use crate::config::{Config, MAX_DIMENSION};
use crate::engine::{total_frames, ShowEngine, MAX_SLIDES};
use crate::spiral::layout::{adjacent, in_grid, Layout};
use crate::spiral::state::{spiral_state_of, SpiralState};
use crate::state::SlideshowState;

verus! {

/// The spiral show: a layout that computes one grid cell per slide, and the
/// shared show machine that animates the slides toward those cells.
pub struct SpiralEngine {
    /// The placement: slides in reveal order and their computed cells.
    pub layout: Layout,
    /// The state machine; filled from the layout by `initialize`.
    pub show: ShowEngine,
}

impl SpiralEngine {
    /// The engine while images are being added: the layout gathers slides,
    /// the show machine is still empty.
    pub open spec fn loading(self) -> bool {
        &&& self.layout.slides_ready()
        &&& self.show.loading()
        &&& self.show.slides.len() == 0
        &&& self.show.cfg == self.layout.cfg
    }

    /// An empty spiral show.
    pub fn new(cfg: Config) -> (e: SpiralEngine)
        requires
            cfg.well_formed(),
        ensures
            e.loading(),
            e.layout.cfg == cfg,
            e.layout.slides.len() == 0,
    {
        SpiralEngine { layout: Layout::new(cfg), show: ShowEngine::new(cfg) }
    }

    /// Add one image as a slide in its prominent pose.
    pub fn add_image(&mut self, texture: usize, width: u32, height: u32)
        requires
            old(self).loading(),
            old(self).layout.slides.len() < MAX_SLIDES,
            1 <= width <= MAX_DIMENSION,
            1 <= height <= MAX_DIMENSION,
        ensures
            final(self).loading(),
            final(self).layout.cfg == old(self).layout.cfg,
            final(self).layout.slides.len() == old(self).layout.slides.len() + 1,
    {
        self.layout.add_image(texture, width, height);
    }

    /// Compute the spiral placement and hand the slides to the show
    /// machine. Returns whether any slide was added; with at least one the
    /// machine stands ready to tick, and every slide's background target is
    /// its own grid cell: the cells are pairwise distinct and consecutive
    /// slides sit on adjacent cells of one inward spiral.
    pub fn initialize(&mut self) -> (ready: bool)
        requires
            old(self).loading(),
        ensures
            ready == (old(self).layout.slides.len() > 0),
            final(self).show.cfg == old(self).show.cfg,
            final(self).layout.cfg == old(self).layout.cfg,
            ready ==> {
                &&& final(self).show.well_formed()
                &&& final(self).show.state == SlideshowState::Displaying
                &&& final(self).show.frames == 0
                &&& final(self).show.slides.len() == old(self).layout.slides.len()
                &&& final(self).layout.assignments.len() == final(self).show.slides.len()
                &&& forall|p: int, q: int|
                    0 <= p < q < final(self).layout.assignments.len() ==> (#[trigger] final(self).layout.assignments[p]).cell != (#[trigger] final(self).layout.assignments[q]).cell
                &&& forall|p: int|
                    0 <= p < final(self).layout.assignments.len() - 1 ==> adjacent(
                        (#[trigger] final(self).layout.assignments[p]).cell,
                        final(self).layout.assignments[p + 1].cell,
                    )
                &&& forall|p: int|
                    0 <= p < final(self).layout.assignments.len() ==> in_grid(
                        (#[trigger] final(self).layout.assignments[p]).cell,
                        final(self).layout.grid_height as int,
                        final(self).layout.grid_width as int,
                    )
                &&& forall|p: int|
                    0 <= p < final(self).layout.assignments.len() ==> (#[trigger] final(self).layout.assignments[p]).cell == crate::spiral::layout::spiral_seq(
                        final(self).layout.grid_height as int,
                        final(self).layout.grid_width as int,
                    )[p]
                &&& forall|p: int|
                    0 <= p < final(self).layout.assignments.len()
                        ==> crate::spiral::layout::cell_scale_law(
                        #[trigger] final(self).layout.assignments[p],
                        old(self).layout.slides[p],
                        old(self).layout.cfg,
                        final(self).layout.grid_width as int,
                    )
                &&& final(self).layout.grid_height * final(self).layout.grid_height
                    >= crate::spiral::layout::grid_row_target(
                    old(self).layout.slides.len() as int,
                    old(self).layout.cfg,
                )
                &&& (final(self).layout.grid_height - 1) * (final(self).layout.grid_height - 1)
                    < crate::spiral::layout::grid_row_target(
                    old(self).layout.slides.len() as int,
                    old(self).layout.cfg,
                )
                &&& final(self).layout.grid_width == (old(self).layout.slides.len() + final(self).layout.grid_height - 1) / (final(self).layout.grid_height as int)
                &&& forall|i: int|
                    0 <= i < final(self).show.slides.len() ==> (#[trigger] final(self).show.slides[i]).end == final(self).layout.assignments[i].target
            },
    {
        if self.layout.slides.len() == 0 {
            return false;
        }
        self.layout.compute_layout();
        let ghost lay = self.layout;
        let ghost show0 = self.show;
        let count = self.layout.slides.len();
        let mut i: usize = 0;
        while i < count
            invariant
                i <= count,
                self.layout == lay,
                self.show.cfg == show0.cfg,
                count == self.layout.slides.len(),
                self.layout.slides_ready(),
                self.show.loading(),
                self.show.cfg == self.layout.cfg,
                self.show.slides@ == self.layout.slides@.take(i as int),
            decreases count - i,
        {
            let s = self.layout.slides[i];
            self.show.add_slide(s);
            proof {
                assert(self.layout.slides@.take(i as int + 1) == self.layout.slides@.take(
                    i as int,
                ).push(s));
            }
            i = i + 1;
        }
        proof {
            assert(self.show.slides@ == self.layout.slides@);
            assert(self.layout.slides@.take(count as int) == self.layout.slides@);
        }
        self.show.initialize()
    }

    /// Advance the show by one tick; see `ShowEngine::tick`. Returns whether
    /// a frame was produced; once finished, nothing is produced and nothing
    /// changes.
    pub fn render_frame(&mut self) -> (produced: bool)
        requires
            old(self).show.well_formed(),
        ensures
            final(self).show.well_formed(),
            final(self).layout == old(self).layout,
            produced == (old(self).show.state != SlideshowState::Finished),
            produced ==> final(self).show.frames == old(self).show.frames + 1,
            !produced ==> final(self).show == old(self).show,
            final(self).show.state == SlideshowState::Finished ==> final(self).show.frames
                == total_frames(old(self).show.slides.len() as int, old(self).show.cfg),
            final(self).show.slides.len() == old(self).show.slides.len(),
            final(self).show.cfg == old(self).show.cfg,
            forall|i: int|
                0 <= i < old(self).show.slides.len() && !(old(self).show.state
                    == SlideshowState::Cleanup && old(self).show.cleanup_timer + 1 >= old(
                    self,
                ).show.cfg.cleanup_ticks && i == old(self).show.cleanup_index) ==> (
                #[trigger] final(self).show.slides[i]).visible == old(self).show.slides[i].visible,
            old(self).show.state == SlideshowState::Cleanup && old(self).show.cleanup_timer + 1
                >= old(self).show.cfg.cleanup_ticks ==> {
                &&& !final(self).show.slides[old(self).show.cleanup_index as int].visible
                &&& old(self).show.cleanup_index > 0 ==> final(self).show.state
                    == SlideshowState::Cleanup && final(self).show.cleanup_index == old(
                    self,
                ).show.cleanup_index - 1
                &&& old(self).show.cleanup_index == 0 ==> final(self).show.state
                    == SlideshowState::Finished
            },
    {
        self.show.tick()
    }

    /// The phase of the spiral show.
    pub fn state(&self) -> (s: SpiralState)
        ensures
            s == spiral_state_of(self.show.state),
    {
        match self.show.state {
            SlideshowState::Displaying => SpiralState::Displaying,
            SlideshowState::Transitioning => SpiralState::Transitioning,
            SlideshowState::Cleanup => SpiralState::Cleanup,
            SlideshowState::Finished => SpiralState::Finished,
        }
    }
}

} // verus!
