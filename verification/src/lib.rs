//! Core of a pointer-nudging utility: validated motion bounds, randomized
//! displacement sampling constrained to a circle, and randomized pacing.
//!
//! The library decides what each step does (validation, displacement, delay);
//! the surrounding binary performs the side effects (moving the pointer,
//! sleeping) between steps.

pub mod config;
pub mod motion;
pub mod pacing;
pub mod rng;
