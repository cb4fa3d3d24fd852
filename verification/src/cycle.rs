use vstd::prelude::*;
use crate::config::Config;
use crate::errors::MonitorError;
use crate::format::{format_table, header_line_spec, row_line_spec, separator_line_spec};
use crate::record::{build_records, records_match, ProcessRecord, RawEntry};
use crate::selector::{select, select_spec};

verus! {

/// Where the refresh loop stands inside one cycle. Cycles repeat
/// forever: there is no terminal phase, only a fatal `Stop` action.
#[derive(Clone, Copy, Debug, PartialEq, Eq, Structural)]
pub enum Phase {
    /// A snapshot of the process table has been requested.
    Sampling,
    /// The freshly laid-out grid has been handed over for drawing.
    Rendering,
    /// The redraw is done; the loop pauses for one refresh interval.
    Waiting,
}

/// What the driver reports back to the loop.
pub enum CycleEvent {
    /// The sampling facility produced a snapshot, observed at wall-clock
    /// time `now` (Unix epoch seconds).
    SnapshotOk(Vec<RawEntry>, i64),
    /// The sampling facility could not produce a snapshot at all.
    SnapshotFailed,
    /// The grid was written and flushed.
    DrawOk,
    /// The terminal output stream could not be written to.
    DrawFailed,
    /// The pause of one refresh interval has elapsed.
    WokeUp,
}

/// What the loop asks the driver to do next.
pub enum CycleAction {
    /// Redraw the whole screen as these lines, top-left first.
    Draw(Vec<String>),
    /// Pause for this many milliseconds.
    Sleep(u64),
    /// Obtain the next snapshot of the process table.
    Sample,
    /// Stop the loop: the error is fatal.
    Stop(MonitorError),
}

/// Which events can arrive in which phase: the driver answers exactly
/// the request the loop made.
pub open spec fn event_fits(phase: Phase, event: CycleEvent) -> bool {
    match phase {
        Phase::Sampling => event is SnapshotOk || event is SnapshotFailed,
        Phase::Rendering => event is DrawOk || event is DrawFailed,
        Phase::Waiting => event is WokeUp,
    }
}

/// How one grid of display lines reflects a list of selected records.
pub open spec fn grid_matches(lines: Seq<String>, rows: Seq<ProcessRecord>, w: nat) -> bool {
    &&& lines.len() == rows.len() + 2
    &&& lines[0]@ == header_line_spec(w)
    &&& lines[1]@ == separator_line_spec(w)
    &&& forall|i: int| 0 <= i < rows.len() ==> lines[i + 2]@ == row_line_spec(#[trigger] rows[i], w)
}

/// How one grid reflects a whole snapshot: the entries with well-formed
/// timestamps become records, the selection policy picks and orders the
/// bounded subset, and the grid shows exactly those rows.
pub open spec fn grid_of_snapshot(
    lines: Seq<String>,
    entries: Seq<RawEntry>,
    now: i64,
    cfg: Config,
) -> bool {
    exists|recs: Seq<ProcessRecord>|
        {
            &&& #[trigger] records_match(recs, entries, now)
            &&& grid_matches(lines, select_spec(recs, cfg.process_limit as int), cfg.column_width as nat)
        }
}

/// Every transition of the refresh loop: what the next phase is and
/// what the returned action must hold, for each phase and event.
pub open spec fn step_relation(
    phase: Phase,
    event: CycleEvent,
    next: Phase,
    action: CycleAction,
    cfg: Config,
) -> bool {
    match (phase, event) {
        (Phase::Sampling, CycleEvent::SnapshotOk(entries, now)) => {
            &&& next == Phase::Rendering
            &&& action matches CycleAction::Draw(lines) && grid_of_snapshot(
                lines@,
                entries@,
                now,
                cfg,
            )
        },
        (Phase::Sampling, CycleEvent::SnapshotFailed) => {
            &&& next == phase
            &&& action == CycleAction::Stop(MonitorError::SamplingUnavailable)
        },
        (Phase::Rendering, CycleEvent::DrawOk) => {
            &&& next == Phase::Waiting
            &&& action == CycleAction::Sleep(cfg.refresh_interval_ms)
        },
        (Phase::Rendering, CycleEvent::DrawFailed) => {
            &&& next == phase
            &&& action == CycleAction::Stop(MonitorError::TerminalWriteFailure)
        },
        (Phase::Waiting, CycleEvent::WokeUp) => {
            &&& next == Phase::Sampling
            &&& action == CycleAction::Sample
        },
        _ => false,
    }
}

/// The refresh loop's decision core. The driver performs the blocking
/// work (sampling, terminal writes, sleeping) and reports each outcome;
/// this machine decides everything else, one cycle after another.
pub struct RefreshLoop {
    /// The configuration fixed at startup; validated before the loop runs.
    pub config: Config,
    /// The current phase of the cycle.
    pub phase: Phase,
}

impl RefreshLoop {
    /// A loop is well-formed when its configuration passed validation.
    pub open spec fn wf(self) -> bool {
        self.config.valid()
    }

    /// Starts a loop on a validated configuration. The driver's first
    /// duty is the returned action: obtain the first snapshot.
    pub fn new(config: Config) -> (r: (RefreshLoop, CycleAction))
        requires
            config.valid(),
        ensures
            r.0.wf(),
            r.0.config == config,
            r.0.phase == Phase::Sampling,
            r.1 == CycleAction::Sample,
    {
        (RefreshLoop { config, phase: Phase::Sampling }, CycleAction::Sample)
    }

    /// Advances the loop by one event and decides the next action.
    ///
    /// A fresh snapshot is turned, in one step, into the grid to draw:
    /// per-entry record construction (dropping malformed entries),
    /// CPU-ranked bounded selection, and the fixed-width table layout.
    /// Failures of sampling or drawing stop the loop with the matching
    /// fatal error; a finished redraw is followed by one interval of
    /// sleep, and waking starts the next cycle.
    pub fn step(&mut self, event: CycleEvent) -> (action: CycleAction)
        requires
            old(self).wf(),
            event_fits(old(self).phase, event),
        ensures
            final(self).wf(),
            final(self).config == old(self).config,
            step_relation(old(self).phase, event, final(self).phase, action, old(self).config),
    {
        match (self.phase, event) {
            (Phase::Sampling, CycleEvent::SnapshotOk(entries, now)) => {
                let records = build_records(&entries, now);
                let ghost recs = records@;
                let selected = select(records, self.config.process_limit);
                let lines = format_table(&selected, self.config.column_width);
                self.phase = Phase::Rendering;
                proof {
                    assert(records_match(recs, entries@, now));
                    assert(grid_matches(
                        lines@,
                        select_spec(recs, self.config.process_limit as int),
                        self.config.column_width as nat,
                    ));
                    assert(grid_of_snapshot(lines@, entries@, now, self.config));
                }
                CycleAction::Draw(lines)
            },
            (Phase::Sampling, CycleEvent::SnapshotFailed) => CycleAction::Stop(
                MonitorError::SamplingUnavailable,
            ),
            (Phase::Rendering, CycleEvent::DrawOk) => {
                self.phase = Phase::Waiting;
                CycleAction::Sleep(self.config.refresh_interval_ms)
            },
            (Phase::Rendering, CycleEvent::DrawFailed) => CycleAction::Stop(
                MonitorError::TerminalWriteFailure,
            ),
            (Phase::Waiting, CycleEvent::WokeUp) => {
                self.phase = Phase::Sampling;
                CycleAction::Sample
            },
            _ => {
                proof {
                    assert(false);
                }
                CycleAction::Sample
            },
        }
    }
}

} // verus!
