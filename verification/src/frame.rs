//! The frame-synchronous pipeline: one simulation tick produces one output
//! frame, and the pixel rows of a rendered frame are reordered for an
//! encoder that wants them top to bottom.

use vstd::prelude::*;
use crate::config::Config;
use crate::engine::{total_frames, ShowEngine};
use crate::state::SlideshowState;

verus! {

/// The fixed-step driver of a reveal-and-scatter show: each call to
/// `advance` moves the whole show forward by exactly one tick and says
/// which slides to render, until the show is finished.
pub struct FrameDriver {
    /// The show being driven.
    pub show: ShowEngine,
}

impl FrameDriver {
    /// Wrap an initialized show.
    pub fn new(show: ShowEngine) -> (d: FrameDriver)
        requires
            show.well_formed(),
        ensures
            d.show == show,
    {
        FrameDriver { show }
    }

    /// Advance the show by one tick. Returns the indices of the slides to
    /// render for this frame, in ascending order, or nothing once the show
    /// is finished: the total number of frames handed out over a whole run
    /// is exactly the show's frame total.
    pub fn advance(&mut self) -> (order: Option<Vec<usize>>)
        requires
            old(self).show.well_formed(),
        ensures
            final(self).show.well_formed(),
            order.is_some() == (old(self).show.state != SlideshowState::Finished),
            order.is_none() ==> *final(self) == *old(self),
            order.is_some() ==> final(self).show.frames == old(self).show.frames + 1,
            final(self).show.state == SlideshowState::Finished ==> final(self).show.frames
                == total_frames(old(self).show.slides.len() as int, old(self).show.cfg),
            final(self).show.slides.len() == old(self).show.slides.len(),
            final(self).show.cfg == old(self).show.cfg,
            forall|i: int|
                0 <= i < old(self).show.slides.len() && !(old(self).show.state
                    == SlideshowState::Cleanup && old(self).show.cleanup_timer + 1 >= old(
                    self,
                ).show.cfg.cleanup_ticks && i == old(self).show.cleanup_index) ==> (
                #[trigger] final(self).show.slides[i]).visible == old(self).show.slides[i].visible,
            old(self).show.state == SlideshowState::Cleanup && old(self).show.cleanup_timer + 1
                >= old(self).show.cfg.cleanup_ticks ==> {
                &&& !final(self).show.slides[old(self).show.cleanup_index as int].visible
                &&& old(self).show.cleanup_index > 0 ==> final(self).show.state
                    == SlideshowState::Cleanup && final(self).show.cleanup_index == old(
                    self,
                ).show.cleanup_index - 1
                &&& old(self).show.cleanup_index == 0 ==> final(self).show.state
                    == SlideshowState::Finished
            },
            order matches Some(o) ==> {
                &&& forall|p: int|
                    0 <= p < o.len() ==> final(self).show.drawable(#[trigger] o[p] as int)
                &&& forall|p: int, q: int| 0 <= p < q < o.len() ==> o[p] < o[q]
                &&& forall|i: int|
                    #[trigger] final(self).show.drawable(i) ==> exists|p: int|
                        0 <= p < o.len() && #[trigger] o[p] as int == i
            },
    {
        let produced = self.show.tick();
        if produced {
            Some(self.show.draw_order())
        } else {
            None
        }
    }
}

/// Bytes in one output frame: four per pixel.
pub fn frame_byte_len(cfg: &Config) -> (n: usize)
    requires
        cfg.well_formed(),
    ensures
        n == cfg.render_width * cfg.render_height * 4,
{
    assert(cfg.render_width * cfg.render_height * 4 <= 1_073_741_824) by (nonlinear_arith)
        requires
            0 < cfg.render_width <= 16384,
            0 < cfg.render_height <= 16384,
    ;
    (cfg.render_width as usize) * (cfg.render_height as usize) * 4
}

/// Reverse the row order of a raw frame: the renderer hands rows bottom to
/// top, the encoder wants them top to bottom. Byte `k` of output row `y`
/// is byte `k` of input row `height - 1 - y`; pixels are four bytes.
pub fn flip_rows(frame: &Vec<u8>, width: u32, height: u32) -> (flipped: Vec<u8>)
    requires
        1 <= width <= 16384,
        1 <= height <= 16384,
        frame.len() == width * height * 4,
    ensures
        flipped.len() == frame.len(),
        forall|y: int, k: int|
            0 <= y < height && 0 <= k < width * 4 ==> #[trigger] flipped[y * (width * 4) + k]
                == frame[(height - 1 - y) * (width * 4) + k],
{
    let row_bytes: usize = (width as usize) * 4;
    proof {
        assert(width * height * 4 == (width * 4) * height) by (nonlinear_arith);
        assert((width * 4) * height <= 1_073_741_824) by (nonlinear_arith)
            requires
                0 < width <= 16384,
                0 < height <= 16384,
        ;
    }
    let mut flipped: Vec<u8> = Vec::new();
    let mut y: usize = 0;
    while y < height as usize
        invariant
            0 < width <= 16384,
            0 < height <= 16384,
            row_bytes == width * 4,
            frame.len() == (width * 4) * height,
            y <= height,
            flipped.len() == y * (width * 4),
            forall|r: int, k: int|
                0 <= r < y && 0 <= k < width * 4 ==> #[trigger] flipped[r * (width * 4) + k]
                    == frame[(height - 1 - r) * (width * 4) + k],
        decreases height - y,
    {
        let src_row: usize = (height as usize) - 1 - y;
        proof {
            assert((y + 1) * (width * 4) == y * (width * 4) + (width * 4)) by (nonlinear_arith);
            assert(y * (width * 4) + (width * 4) <= height * (width * 4)) by (nonlinear_arith)
                requires
                    0 <= y < height,
                    0 < width,
            ;
            assert((height - 1 - y) * (width * 4) + (width * 4) <= height * (width * 4))
                by (nonlinear_arith)
                requires
                    0 <= y < height,
                    0 < width,
            ;
            assert(height * (width * 4) == (width * 4) * height) by (nonlinear_arith);
        }
        let mut k: usize = 0;
        while k < row_bytes
            invariant
                0 < width <= 16384,
                0 < height <= 16384,
                row_bytes == width * 4,
                frame.len() == (width * 4) * height,
                y < height,
                src_row == height - 1 - y,
                (height - 1 - y) * (width * 4) + (width * 4) <= frame.len(),
                k <= row_bytes,
                flipped.len() == y * (width * 4) + k,
                forall|r: int, kk: int|
                    0 <= r < y && 0 <= kk < width * 4 ==> #[trigger] flipped[r * (width * 4) + kk]
                        == frame[(height - 1 - r) * (width * 4) + kk],
                forall|kk: int|
                    0 <= kk < k ==> #[trigger] flipped[y * (width * 4) + kk] == frame[(height - 1
                        - y) * (width * 4) + kk],
            decreases row_bytes - k,
        {
            let ghost prev = flipped@;
            let b = frame[src_row * row_bytes + k];
            flipped.push(b);
            proof {
                assert forall|r: int, kk: int| 0 <= r < y && 0 <= kk < width * 4 implies
                    #[trigger] flipped[r * (width * 4) + kk] == frame[(height - 1 - r) * (width
                    * 4) + kk] by {
                    assert(0 <= r * (width * 4) + kk < y * (width * 4)) by (nonlinear_arith)
                        requires
                            0 <= r < y,
                            0 <= kk < width * 4,
                    ;
                    assert(flipped[r * (width * 4) + kk] == prev[r * (width * 4) + kk]);
                }
                assert forall|kk: int| 0 <= kk < k + 1 implies #[trigger] flipped[y * (width * 4)
                    + kk] == frame[(height - 1 - y) * (width * 4) + kk] by {
                    if kk < k {
                        assert(flipped[y * (width * 4) + kk] == prev[y * (width * 4) + kk]);
                    } else {
                        assert(flipped[prev.len() as int] == b);
                    }
                }
            }
            k = k + 1;
        }
        y = y + 1;
    }
    proof {
        assert(height * (width * 4) == width * height * 4) by (nonlinear_arith);
    }
    flipped
}

} // verus!
