use vstd::prelude::*;
use vstd::arithmetic::div_mod::lemma_fundamental_div_mod_converse;
use crate::errors::RecordError;
use crate::status::Status;

verus! {

/// Latest Unix second count (23:59:59 on the last day of year 262142)
/// that denotes a representable point in time.
pub const MAX_START_TIME: u64 = 8_210_266_876_799;

/// A raw process entry, as one call of the sampling facility hands it
/// over: plain values only, with text fields already decoded at the edge
/// (`None` where the raw OS string was not valid text).
#[derive(Clone, Debug, PartialEq, Eq)]
pub struct RawEntry {
    /// Process identifier, unique within one snapshot.
    pub pid: u32,
    /// Executable label; `None` if it could not be decoded as text.
    pub name: Option<String>,
    /// IEEE 754 bits of the CPU usage percentage since the last sample.
    /// The verified core never computes with floating point: it reads the
    /// percentage only through these bits (for ranking) and through
    /// `cpu_text` (for display).
    pub cpu_bits: u32,
    /// The percentage's default textual form, rendered at the sampling edge.
    pub cpu_text: String,
    /// Cumulative bytes read since process start.
    pub read_bytes: u64,
    /// Cumulative bytes written since process start.
    pub written_bytes: u64,
    /// Process start time, in Unix epoch seconds.
    pub start_time: u64,
    /// Raw lifecycle status code.
    pub status_code: u32,
    /// Argument list; `None` if the command line was not valid text.
    pub args: Option<Vec<String>>,
}

/// One sampled process, rebuilt fresh every refresh cycle and discarded at
/// the cycle's end; never mutated after construction.
#[derive(Clone, Debug, PartialEq, Eq)]
pub struct ProcessRecord {
    /// Process identifier, unique within one snapshot.
    pub pid: u32,
    /// Executable label, or the placeholder where it was undecodable.
    pub name: String,
    /// IEEE 754 bits of the CPU usage percentage; the selection policy
    /// orders records by `cpu_rank_spec` of these bits.
    pub cpu_bits: u32,
    /// The percentage's textual form, shown in the CPU column.
    pub cpu_text: String,
    /// Cumulative bytes read since process start.
    pub read_bytes: u64,
    /// Cumulative bytes written since process start.
    pub written_bytes: u64,
    /// Whole minutes elapsed since process start; negative under clock
    /// skew, which is shown as-is rather than clamped.
    pub elapsed_minutes: i64,
    /// Lifecycle status.
    pub status: Status,
    /// Invocation line: the argument list joined with single spaces.
    pub cmd: String,
}

/// Total-order rank of a CPU usage percentage, read off its IEEE 754
/// bits. Ranks order as the percentages do (the two zeros get adjacent
/// ranks, negative zero first), except that every NaN gets rank zero,
/// below all real values, so that a source emitting NaN degrades to
/// lowest priority instead of breaking the order.
pub open spec fn cpu_rank_spec(bits: u32) -> u64 {
    let exponent = (bits / 0x80_0000) % 0x100;
    let mantissa = bits % 0x80_0000;
    if exponent == 0xFF && mantissa != 0 {
        0u64
    } else if bits < 0x8000_0000 {
        (bits + 0x8000_0000 + 1) as u64
    } else {
        (0xFFFF_FFFFu32 - bits + 1) as u64
    }
}

/// Computes the total-order rank of a CPU percentage from its bits.
pub fn cpu_rank(bits: u32) -> (r: u64)
    ensures
        r == cpu_rank_spec(bits),
{
    let exponent: u32 = (bits / 0x80_0000) % 0x100;
    let mantissa: u32 = bits % 0x80_0000;
    if exponent == 0xFF && mantissa != 0 {
        0
    } else if bits < 0x8000_0000 {
        (bits as u64) + 0x8000_0000 + 1
    } else {
        (0xFFFF_FFFF - (bits as u64)) + 1
    }
}

/// A start time the monitor accepts: one that denotes a representable
/// point in time.
pub open spec fn start_time_valid(start_time: u64) -> bool {
    start_time <= MAX_START_TIME
}

/// Relies on chrono's `DateTime::<Utc>::from_timestamp`: it returns
/// `Some` exactly when the second count lies in chrono's representable
/// range (midnight of -262143-01-01 through the last second of
/// 262142-12-31).
#[verifier::external_body]
fn timestamp_representable(secs: i64) -> (r: bool)
    ensures
        r == (-8_334_601_228_800i64 <= secs && secs <= 8_210_266_876_799i64),
{
    chrono::DateTime::<chrono::Utc>::from_timestamp(secs, 0).is_some()
}

/// Whole minutes from a process's start time to the sampling clock `now`,
/// rounded toward minus infinity.
pub open spec fn elapsed_minutes_spec(now: i64, start_time: u64) -> int {
    (now - start_time) / 60
}

fn compute_elapsed_minutes(now: i64, start_time: u64) -> (r: i64)
    ensures
        r as int == elapsed_minutes_spec(now, start_time),
{
    let now_wide: i128 = now as i128;
    let start_wide: i128 = start_time as i128;
    if now_wide >= start_wide {
        let diff: u128 = (now_wide - start_wide) as u128;
        let q: u128 = diff / 60;
        q as i64
    } else {
        let diff: u128 = (start_wide - now_wide) as u128;
        let q: u128 = diff / 60;
        let rem: u128 = diff % 60;
        if rem == 0 {
            proof {
                lemma_fundamental_div_mod_converse(
                    now - start_time,
                    60,
                    -(q as int),
                    0,
                );
            }
            -(q as i64)
        } else {
            proof {
                lemma_fundamental_div_mod_converse(
                    now - start_time,
                    60,
                    -(q as int) - 1,
                    60 - (rem as int),
                );
            }
            -(q as i64) - 1
        }
    }
}

/// The text of a decoded field, or the fixed placeholder where the raw
/// OS string was not valid text: invalid encoding never fails a record.
pub open spec fn text_or_placeholder_spec(t: Option<String>) -> Seq<char> {
    match t {
        Option::Some(s) => s@,
        Option::None => "<invalid>"@,
    }
}

fn text_or_placeholder(t: &Option<String>) -> (r: String)
    ensures
        r@ == text_or_placeholder_spec(*t),
{
    match t {
        Option::Some(s) => s.clone(),
        Option::None => "<invalid>".to_owned(),
    }
}

/// An argument list joined with single ASCII spaces; the empty list
/// gives the empty line.
pub open spec fn join_spaces(parts: Seq<Seq<char>>) -> Seq<char>
    decreases parts.len(),
{
    if parts.len() == 0 {
        Seq::empty()
    } else if parts.len() == 1 {
        parts[0]
    } else {
        join_spaces(parts.drop_last()) + seq![' '] + parts.last()
    }
}

/// Joins an argument list with single ASCII space separators.
pub fn join_args(args: &Vec<String>) -> (r: String)
    ensures
        r@ == join_spaces(args.deep_view()),
{
    let mut out = String::new();
    let mut i: usize = 0;
    while i < args.len()
        invariant
            i <= args.len(),
            out@ == join_spaces(args.deep_view().take(i as int)),
        decreases args.len() - i,
    {
        if i > 0 {
            out.append(" ");
        }
        out.append(args[i].as_str());
        proof {
            reveal_strlit(" ");
            let dv = args.deep_view();
            assert(dv[i as int] == args@[i as int]@);
            assert(dv.take(i + 1).drop_last() =~= dv.take(i as int));
            assert(dv.take(i + 1).last() == dv[i as int]);
            assert(" "@ =~= seq![' ']);
            assert(out@ =~= join_spaces(dv.take(i + 1)));
        }
        i += 1;
    }
    proof {
        assert(args.deep_view().take(args.len() as int) =~= args.deep_view());
    }
    out
}

/// The command line a raw entry denotes: its arguments joined with
/// single spaces, or the placeholder where they were undecodable.
pub open spec fn cmd_text_spec(args: Option<Vec<String>>) -> Seq<char> {
    match args {
        Option::Some(a) => join_spaces(a.deep_view()),
        Option::None => "<invalid>"@,
    }
}

/// How a built record reflects the raw entry it came from, as of
/// sampling time `now`.
pub open spec fn record_matches(p: ProcessRecord, e: RawEntry, now: i64) -> bool {
    &&& p.pid == e.pid
    &&& p.name@ == text_or_placeholder_spec(e.name)
    &&& p.cpu_bits == e.cpu_bits
    &&& p.cpu_text@ == e.cpu_text@
    &&& p.read_bytes == e.read_bytes
    &&& p.written_bytes == e.written_bytes
    &&& p.elapsed_minutes as int == elapsed_minutes_spec(now, e.start_time)
    &&& p.status == Status::of_code_spec(e.status_code)
    &&& p.cmd@ == cmd_text_spec(e.args)
}

impl ProcessRecord {
    /// Builds the record of one raw snapshot entry, as of wall-clock time
    /// `now` (Unix epoch seconds).
    ///
    /// Construction fails, with `MalformedTimestamp`, exactly when the
    /// entry's start time does not denote a representable point in time;
    /// undecodable text fields degrade to the placeholder instead of
    /// failing the record.
    pub fn from_raw(entry: &RawEntry, now: i64) -> (r: Result<ProcessRecord, RecordError>)
        ensures
            r is Ok <==> start_time_valid(entry.start_time),
            r is Ok ==> record_matches(r->Ok_0, *entry, now),
            !start_time_valid(entry.start_time) ==> r == Err::<ProcessRecord, RecordError>(
                RecordError::MalformedTimestamp,
            ),
    {
        if entry.start_time > i64::MAX as u64 {
            return Err(RecordError::MalformedTimestamp);
        }
        if !timestamp_representable(entry.start_time as i64) {
            return Err(RecordError::MalformedTimestamp);
        }
        let cmd = match &entry.args {
            Option::Some(a) => join_args(a),
            Option::None => "<invalid>".to_owned(),
        };
        Ok(
            ProcessRecord {
                pid: entry.pid,
                name: text_or_placeholder(&entry.name),
                cpu_bits: entry.cpu_bits,
                cpu_text: entry.cpu_text.clone(),
                read_bytes: entry.read_bytes,
                written_bytes: entry.written_bytes,
                elapsed_minutes: compute_elapsed_minutes(now, entry.start_time),
                status: Status::from_code(entry.status_code),
                cmd,
            },
        )
    }
}

/// How a cycle's built records reflect a snapshot: exactly the entries
/// with a representable start time survive, in snapshot order, each
/// reflected field by field.
pub open spec fn records_match(recs: Seq<ProcessRecord>, entries: Seq<RawEntry>, now: i64) -> bool {
    let kept = entries.filter(|e: RawEntry| start_time_valid(e.start_time));
    &&& recs.len() == kept.len()
    &&& forall|i: int| 0 <= i < recs.len() ==> record_matches(#[trigger] recs[i], kept[i], now)
}

/// Builds the records of a whole snapshot, dropping exactly the entries
/// whose start time is malformed: one bad entry never affects the other
/// records and never aborts the cycle.
pub fn build_records(entries: &Vec<RawEntry>, now: i64) -> (r: Vec<ProcessRecord>)
    ensures
        records_match(r@, entries@, now),
{
    let mut out: Vec<ProcessRecord> = Vec::new();
    let mut i: usize = 0;
    while i < entries.len()
        invariant
            i <= entries.len(),
            records_match(out@, entries@.take(i as int), now),
        decreases entries.len() - i,
    {
        let ghost out_prev = out@;
        match ProcessRecord::from_raw(&entries[i], now) {
            Ok(p) => out.push(p),
            Err(_) => {},
        }
        proof {
            let pred = |e: RawEntry| start_time_valid(e.start_time);
            let prefix = entries@.take(i as int);
            let next = entries@.take(i + 1);
            assert(next =~= prefix + seq![entries@[i as int]]);
            Seq::filter_distributes_over_add(prefix, seq![entries@[i as int]], pred);
            reveal_with_fuel(Seq::filter, 2);
            if pred(entries@[i as int]) {
                assert(seq![entries@[i as int]].filter(pred) =~= seq![entries@[i as int]]);
                assert(next.filter(pred) =~= prefix.filter(pred).push(entries@[i as int]));
            } else {
                assert(seq![entries@[i as int]].filter(pred) =~= Seq::<RawEntry>::empty());
                assert(next.filter(pred) =~= prefix.filter(pred));
                assert(out@ =~= out_prev);
            }
            assert(records_match(out@, next, now));
        }
        i += 1;
    }
    proof {
        assert(entries@.take(entries@.len() as int) =~= entries@);
    }
    out
}

} // verus!
