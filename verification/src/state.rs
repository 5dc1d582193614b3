//! The phases of the reveal-and-scatter show shared by the linear and
//! spiral orchestrators.

use vstd::prelude::*;

verus! {

/// Phase of the show. The machine only ever moves forward:
/// Displaying -> Transitioning, Transitioning -> Displaying (next slide) or
/// -> Cleanup, Cleanup -> Finished.
#[derive(Clone, Copy, Debug, PartialEq, Eq, Structural)]
pub enum SlideshowState {
    /// The current slide is shown prominently.
    Displaying,
    /// The current slide is animating to the background.
    Transitioning,
    /// Background slides are hidden one by one, last first.
    Cleanup,
    /// All slides processed; no more frames are produced.
    Finished,
}

} // verus!
