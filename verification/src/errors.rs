use vstd::prelude::*;

verus! {

/// Fatal failures: these stop startup or end the refresh loop; they are
/// never recovered from mid-cycle.
#[derive(Clone, Copy, Debug, PartialEq, Eq, Structural)]
pub enum MonitorError {
    /// The sampling facility could not produce a snapshot at all.
    SamplingUnavailable,
    /// A configured column width, process limit or refresh interval is out
    /// of its valid range; detected at startup, before the loop begins.
    InvalidConfiguration,
    /// The terminal output stream could not be written to.
    TerminalWriteFailure,
}

impl MonitorError {
    /// The human-readable description written to the error stream when
    /// the failure ends the process.
    pub open spec fn message_spec(self) -> Seq<char> {
        match self {
            MonitorError::SamplingUnavailable => "could not sample the process table"@,
            MonitorError::InvalidConfiguration => "invalid configuration"@,
            MonitorError::TerminalWriteFailure => "could not write to the terminal"@,
        }
    }

    /// Renders the human-readable description.
    pub fn message(&self) -> (r: String)
        ensures
            r@ == self.message_spec(),
    {
        match self {
            MonitorError::SamplingUnavailable => "could not sample the process table".to_owned(),
            MonitorError::InvalidConfiguration => "invalid configuration".to_owned(),
            MonitorError::TerminalWriteFailure => "could not write to the terminal".to_owned(),
        }
    }
}

/// Per-record failures: the offending raw entry is dropped from the cycle's
/// output and the cycle continues with the remaining entries.
#[derive(Clone, Copy, Debug, PartialEq, Eq, Structural)]
pub enum RecordError {
    /// The entry's start timestamp does not denote a representable point
    /// in time.
    MalformedTimestamp,
}

} // verus!
