//! Per-slide phases of the push-box carousel. A slide moves strictly
//! forward through them and never back.

use vstd::prelude::*;

verus! {

/// Phase of one push-box slide.
#[derive(Clone, Copy, Debug, PartialEq, Eq, Structural)]
pub enum PushBoxState {
    /// Sliding in from the left edge.
    Entering,
    /// Growing from half size to full size at the center.
    ZoomingIn,
    /// Held at the center while the Ken-Burns crop moves.
    Displaying,
    /// Shrinking back to half size.
    ZoomingOut,
    /// Sliding out past the right edge; terminal.
    Exiting,
}

/// Position of a phase in the fixed forward order.
pub open spec fn rank(s: PushBoxState) -> int {
    match s {
        PushBoxState::Entering => 0,
        PushBoxState::ZoomingIn => 1,
        PushBoxState::Displaying => 2,
        PushBoxState::ZoomingOut => 3,
        PushBoxState::Exiting => 4,
    }
}

/// The phase following `s`; the terminal phase follows itself.
pub open spec fn next_state(s: PushBoxState) -> PushBoxState {
    match s {
        PushBoxState::Entering => PushBoxState::ZoomingIn,
        PushBoxState::ZoomingIn => PushBoxState::Displaying,
        PushBoxState::Displaying => PushBoxState::ZoomingOut,
        PushBoxState::ZoomingOut => PushBoxState::Exiting,
        PushBoxState::Exiting => PushBoxState::Exiting,
    }
}

} // verus!
