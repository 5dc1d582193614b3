//! Run-wide configuration: output resolution, frame rate, and the phase
//! durations of the show, all expressed in whole simulation ticks.

use vstd::prelude::*;

verus! {

/// Upper bound on the output resolution accepted by the engine, in pixels.
pub const MAX_DIMENSION: u32 = 16384;

/// Upper bound on a phase duration, in ticks (about 9 hours at 60 fps).
pub const MAX_TICKS: u32 = 2_000_000;

/// Configuration of one render run. One simulation tick corresponds to one
/// output video frame, so a duration of `n` ticks lasts `n / fps` seconds.
#[derive(Clone, Copy, PartialEq, Eq, Structural)]
pub struct Config {
    /// Width of the output frame in pixels.
    pub render_width: u32,
    /// Height of the output frame in pixels.
    pub render_height: u32,
    /// Output frames per second; fixed for the whole run.
    pub fps: u32,
    /// How long each slide is shown prominently, in ticks.
    pub display_ticks: u32,
    /// How long a slide's transition animation runs, in ticks.
    pub animation_ticks: u32,
    /// Ticks between two background slides disappearing during cleanup.
    pub cleanup_ticks: u32,
}

impl Config {
    /// All fields positive and small enough that every intermediate product
    /// in the engine fits comfortably in 64 bits.
    pub open spec fn well_formed(self) -> bool {
        &&& 0 < self.render_width <= MAX_DIMENSION
        &&& 0 < self.render_height <= MAX_DIMENSION
        &&& 0 < self.fps <= 1000
        &&& 0 < self.display_ticks <= MAX_TICKS
        &&& 0 < self.animation_ticks <= MAX_TICKS
        &&& 0 < self.cleanup_ticks <= MAX_TICKS
    }

    /// The stock configuration: 1920x1080 at 60 fps, slides shown
    /// for 2 s, transitions of 0.5 s, one cleanup step every 0.2 s.
    pub fn standard() -> (c: Config)
        ensures
            c.well_formed(),
            c.render_width == 1920,
            c.render_height == 1080,
            c.fps == 60,
            c.display_ticks == 120,
            c.animation_ticks == 30,
            c.cleanup_ticks == 12,
    {
        Config {
            render_width: 1920,
            render_height: 1080,
            fps: 60,
            display_ticks: 120,
            animation_ticks: 30,
            cleanup_ticks: 12,
        }
    }
}

/// Number of whole ticks that a duration given in milliseconds spans at the
/// given frame rate, rounded to the nearest tick.
pub fn duration_ticks(fps: u32, millis: u32) -> (t: u64)
    requires
        fps <= 1000,
        millis <= 100_000_000,
    ensures
        t == (fps * millis + 500) / 1000,
{
    let f: u64 = fps as u64;
    let m: u64 = millis as u64;
    assert(f * m <= 100_000_000_000) by (nonlinear_arith)
        requires
            f <= 1000,
            m <= 100_000_000,
    ;
    (f * m + 500) / 1000
}

} // verus!
