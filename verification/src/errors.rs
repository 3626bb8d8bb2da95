//! Error taxonomy for the telemetry library.

use vstd::prelude::*;

verus! {

/// Everything that can go wrong while enumerating devices or polling the
/// power-monitoring IC. Each failure is surfaced immediately; nothing is
/// retried or silently swallowed.
#[derive(Clone, Copy, Debug, PartialEq, Eq, Structural)]
pub enum MonitorError {
    /// The vendor driver interface could not be reached, or enumeration
    /// itself reported a non-success status (the wrapped driver status).
    InitializationError { status: i32 },
    /// The interface initialized but zero compatible devices were found.
    NoDeviceError,
    /// A device index outside the enumerated range `[0, count)` was used.
    InvalidDeviceIndexError { index: i32, count: usize },
    /// An individual I2C transaction reported a non-success driver status.
    TransactionError { status: i32 },
}

} // verus!
