//! The spiral orchestrator: the shared show machine with targets taken from
//! a spiral grid layout instead of random scatter.

pub mod engine;
pub mod layout;
pub mod state;
