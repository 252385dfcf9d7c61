//! Timing helpers for builds without a clock: an `Instant` whose reading
//! never advances.

pub mod util;
