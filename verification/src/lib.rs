//! Deterministic slideshow animation engine.
//!
//! Turns a set of photographs into a frame-exact animation: each slide is
//! driven through a sequence of transform states by fixed-point tweens, and
//! one of three orchestrators decides, tick by tick, which slide animates
//! and when the whole show is complete. All time is measured in whole
//! simulation ticks (one tick = one output frame) and all animated values
//! are scaled integers, so a run's output is reproducible bit for bit.

pub mod config;
pub mod detect;
pub mod easing;
pub mod engine;
pub mod frame;
pub mod orientation;
pub mod paths;
pub mod push_box;
pub mod random;
pub mod slide;
pub mod spiral;
pub mod state;
pub mod transform;
pub mod tween;
