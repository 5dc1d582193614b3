//! The push-box carousel orchestrator: slides push in from the left one
//! after another, each shown with a Ken-Burns pan/zoom before it is pushed
//! out to the right.

pub mod engine;
pub mod slide;
pub mod state;
