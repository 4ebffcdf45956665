//! A rate meter: a lifetime event count together with rolling rate windows
//! that are advanced lazily, on a fixed five-second cadence, by whichever
//! caller first notices that an interval has elapsed.

pub mod schedule;
pub mod scalar;
pub mod ewma;
pub mod state;
pub mod clock;
pub mod meter;
