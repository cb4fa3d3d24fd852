use vstd::prelude::*;
use crate::errors::MonitorError;

verus! {

/// Largest accepted column width: wide enough for any real terminal,
/// small enough that the table-width arithmetic (eight columns and
/// seven separators) cannot overflow a 32-bit `usize`.
pub const MAX_COLUMN_WIDTH: usize = 0x7FF_FFFF;

/// The recognized configuration surface of the monitor.
#[derive(Clone, Copy, Debug, PartialEq, Eq, Structural)]
pub struct Config {
    /// Pause between two refresh cycles, in milliseconds.
    pub refresh_interval_ms: u64,
    /// Largest number of processes shown per cycle.
    pub process_limit: usize,
    /// Width budget of a standard table column, in characters.
    pub column_width: usize,
}

impl Config {
    /// A configuration the monitor can run with: the truncation rule needs
    /// at least three characters per column, at least one row must be
    /// shown, and the cadence must be a positive pause.
    pub open spec fn valid(self) -> bool {
        &&& self.column_width >= 3
        &&& self.column_width <= MAX_COLUMN_WIDTH
        &&& self.process_limit >= 1
        &&& self.refresh_interval_ms >= 1
    }

    /// Startup validation: rejects an out-of-range width, limit or
    /// interval before the refresh loop begins, never mid-cycle.
    pub fn validate(&self) -> (r: Result<(), MonitorError>)
        ensures
            r is Ok <==> self.valid(),
            !self.valid() ==> r == Err::<(), MonitorError>(MonitorError::InvalidConfiguration),
    {
        if self.column_width >= 3 && self.column_width <= MAX_COLUMN_WIDTH && self.process_limit
            >= 1 && self.refresh_interval_ms >= 1 {
            Ok(())
        } else {
            Err(MonitorError::InvalidConfiguration)
        }
    }
}

impl Default for Config {
    /// The default surface: a two-second cadence, fifteen processes,
    /// twelve-character columns.
    fn default() -> (r: Self)
        ensures
            r == (Config { refresh_interval_ms: 2000u64, process_limit: 15usize, column_width: 12usize }),
    {
        Config { refresh_interval_ms: 2000, process_limit: 15, column_width: 12 }
    }
}

} // verus!
