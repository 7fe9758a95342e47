//! The configuration record and the error taxonomy.
//!
//! A `Config` is a pure data holder for six bounds, produced once by the
//! caller before the loop begins and never mutated. Its two validity checks
//! are evaluated lazily, at the point of use, on every step.

use vstd::prelude::*;

verus! {

/// The six configured bounds: distance range (pixels), delay range (seconds),
/// a debug flag and a verbosity level. The distance and delay invariants
/// (`min <= max`) are enforced by `step`, not assumed here.
#[derive(Clone, Copy, Debug, PartialEq, Eq, Structural)]
pub struct Config {
    pub debug: bool,
    pub verbose: u8,
    pub max_distance: i32,
    pub min_distance: i32,
    pub max_delay: u64,
    pub min_delay: u64,
}

/// The two configuration faults a step can detect. Both are fatal by policy:
/// the outer loop stops at the first one.
#[derive(Clone, Copy, Debug, PartialEq, Eq, Structural)]
pub enum StepError {
    InvalidDistanceBounds,
    InvalidDelayBounds,
}

impl Config {
    /// The distance range is usable: its minimum does not exceed its maximum.
    pub open spec fn distance_bounds_valid(self) -> bool {
        self.min_distance <= self.max_distance
    }

    /// The delay range is usable: its minimum does not exceed its maximum.
    pub open spec fn delay_bounds_valid(self) -> bool {
        self.min_delay <= self.max_delay
    }
}

/// What a step detects for a given configuration: the delay bounds are
/// checked first, then the distance bounds; a valid configuration yields
/// no error. This is the whole decision that ends the outer loop.
pub open spec fn config_error(c: Config) -> Option<StepError> {
    if !c.delay_bounds_valid() {
        Some(StepError::InvalidDelayBounds)
    } else if !c.distance_bounds_valid() {
        Some(StepError::InvalidDistanceBounds)
    } else {
        None
    }
}

impl StepError {
    /// The human-readable cause, as the outer loop reports it before exiting.
    pub fn message(&self) -> (r: &'static str)
        ensures
            *self == StepError::InvalidDistanceBounds ==> r@ == "min-distance is greater than max-distance"@,
            *self == StepError::InvalidDelayBounds ==> r@ == "min-delay is greater than max-delay"@,
    {
        match self {
            StepError::InvalidDistanceBounds => "min-distance is greater than max-distance",
            StepError::InvalidDelayBounds => "min-delay is greater than max-delay",
        }
    }
}

} // verus!
