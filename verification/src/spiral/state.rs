//! Phases of the spiral show. The machine is the same as the linear one;
//! only the slide targets differ, so the phases mirror `SlideshowState`.

use vstd::prelude::*;
use crate::state::SlideshowState;

verus! {

/// Phase of the spiral show.
#[derive(Clone, Copy, Debug, PartialEq, Eq, Structural)]
pub enum SpiralState {
    /// The current slide is shown prominently.
    Displaying,
    /// The current slide is animating to its grid cell.
    Transitioning,
    /// Background slides are hidden one by one, last first.
    Cleanup,
    /// All slides processed; no more frames are produced.
    Finished,
}

/// The spiral phase standing for a phase of the shared show machine.
pub open spec fn spiral_state_of(s: SlideshowState) -> SpiralState {
    match s {
        SlideshowState::Displaying => SpiralState::Displaying,
        SlideshowState::Transitioning => SpiralState::Transitioning,
        SlideshowState::Cleanup => SpiralState::Cleanup,
        SlideshowState::Finished => SpiralState::Finished,
    }
}

} // verus!
