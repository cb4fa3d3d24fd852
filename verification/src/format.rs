use vstd::prelude::*;
use vstd::string::*;
use crate::numfmt::{dec_int, dec_rep, i64_to_dec, u64_to_dec};
use crate::record::ProcessRecord;

verus! {

/// The three-character ellipsis that marks a truncated field.
pub open spec fn ellipsis() -> Seq<char> {
    seq!['.', '.', '.']
}

/// Ellipsis truncation: text longer than `max` characters is cut to
/// `max - 3` characters with the ellipsis appended, so the result is
/// exactly `max` characters; shorter text is kept as it is.
pub open spec fn truncate_spec(s: Seq<char>, max: nat) -> Seq<char>
    recommends
        max >= 3,
{
    if s.len() > max {
        s.take(max - 3) + ellipsis()
    } else {
        s
    }
}

/// Applies the truncate-and-ellipsis rule to one stringified field.
/// No padding happens at this stage: alignment is a separate, later step.
pub fn truncate_and_ellipsis(s: &str, max_len: usize) -> (r: String)
    requires
        max_len >= 3,
    ensures
        r@ == truncate_spec(s@, max_len as nat),
        s@.len() > max_len ==> r@.len() == max_len,
{
    let n = s.unicode_len();
    if n > max_len {
        let head = s.substring_char(0, max_len - 3);
        let mut out = head.to_owned();
        out.append("...");
        proof {
            reveal_strlit("...");
            assert("..."@ =~= ellipsis());
            assert(out@ =~= truncate_spec(s@, max_len as nat));
        }
        out
    } else {
        s.to_owned()
    }
}

/// A run of ASCII spaces.
pub open spec fn spaces(n: nat) -> Seq<char> {
    Seq::new(n, |i: int| ' ')
}

/// Left justification: text shorter than the nominal width `w` is padded
/// with spaces up to `w`; longer text is left alone.
pub open spec fn pad_spec(s: Seq<char>, w: nat) -> Seq<char> {
    if s.len() >= w {
        s
    } else {
        s + spaces((w - s.len()) as nat)
    }
}

fn pad_to_width(s: String, w: usize) -> (r: String)
    ensures
        r@ == pad_spec(s@, w as nat),
{
    let ghost orig = s@;
    let mut out = s;
    let mut len = out.as_str().unicode_len();
    proof {
        assert(orig + spaces(0) =~= orig);
    }
    while len < w
        invariant
            len == out@.len(),
            orig.len() <= len,
            orig.len() >= w ==> len == orig.len(),
            orig.len() < w ==> len <= w,
            out@ == orig + spaces((len - orig.len()) as nat),
        decreases w - len,
    {
        out.append(" ");
        proof {
            reveal_strlit(" ");
            assert(" "@ =~= seq![' ']);
            assert(out@ =~= orig + spaces((len + 1 - orig.len()) as nat));
        }
        len += 1;
    }
    proof {
        assert(out@ =~= pad_spec(orig, w as nat));
    }
    out
}

/// One table cell: the text truncated to `trunc_w` characters with an
/// ellipsis, then left-justified to the nominal width `pad_w`.
pub open spec fn cell_spec(s: Seq<char>, trunc_w: nat, pad_w: nat) -> Seq<char> {
    pad_spec(truncate_spec(s, trunc_w), pad_w)
}

fn make_cell(s: &str, trunc_w: usize, pad_w: usize) -> (r: String)
    requires
        trunc_w >= 3,
    ensures
        r@ == cell_spec(s@, trunc_w as nat, pad_w as nat),
{
    pad_to_width(truncate_and_ellipsis(s, trunc_w), pad_w)
}

/// The separator between two columns.
pub open spec fn column_sep() -> Seq<char> {
    seq![' ', '|', ' ']
}

/// One display row: the record's eight fields stringified in their
/// natural textual form, truncated and left-justified to the column
/// width `w`, and joined by the column separator. The command column is
/// the most frequently truncated, so its truncation budget is doubled.
pub open spec fn row_line_spec(p: ProcessRecord, w: nat) -> Seq<char> {
    cell_spec(dec_rep(p.pid as nat), w, w) + column_sep() + cell_spec(p.name@, w, w)
        + column_sep() + cell_spec(p.cpu_text@, w, w) + column_sep() + cell_spec(
        dec_rep(p.read_bytes as nat),
        w,
        w,
    ) + column_sep() + cell_spec(dec_rep(p.written_bytes as nat), w, w) + column_sep()
        + cell_spec(dec_int(p.elapsed_minutes as int), w, w) + column_sep() + cell_spec(
        p.status.label_spec(),
        w,
        w,
    ) + column_sep() + cell_spec(p.cmd@, 2 * w, w)
}

/// The header row, one label per column, laid out like every data row.
pub open spec fn header_line_spec(w: nat) -> Seq<char> {
    cell_spec("PID"@, w, w) + column_sep() + cell_spec("NAME"@, w, w) + column_sep() + cell_spec(
        "CPU %"@,
        w,
        w,
    ) + column_sep() + cell_spec("READ(B)"@, w, w) + column_sep() + cell_spec(
        "WRITTEN(B)"@,
        w,
        w,
    ) + column_sep() + cell_spec("UPTIME(m)"@, w, w) + column_sep() + cell_spec(
        "STATUS"@,
        w,
        w,
    ) + column_sep() + cell_spec("COMMAND"@, w, w)
}

/// The rule of dashes under the header, spanning the eight columns and
/// the seven separators between them.
pub open spec fn separator_line_spec(w: nat) -> Seq<char> {
    Seq::new(8 * w + 21, |i: int| '-')
}

fn dash_line(n: usize) -> (r: String)
    ensures
        r@ == Seq::new(n as nat, |i: int| '-'),
{
    let mut out = String::new();
    let mut k: usize = 0;
    proof {
        assert(out@ =~= Seq::new(0, |i: int| '-'));
    }
    while k < n
        invariant
            k <= n,
            out@ == Seq::new(k as nat, |i: int| '-'),
        decreases n - k,
    {
        out.append("-");
        proof {
            reveal_strlit("-");
            assert(out@ =~= Seq::new((k + 1) as nat, |i: int| '-'));
        }
        k += 1;
    }
    out
}

fn header_line(w: usize) -> (r: String)
    requires
        w >= 3,
    ensures
        r@ == header_line_spec(w as nat),
{
    let mut line = make_cell("PID", w, w);
    line.append(" | ");
    let c = make_cell("NAME", w, w);
    line.append(c.as_str());
    line.append(" | ");
    let c = make_cell("CPU %", w, w);
    line.append(c.as_str());
    line.append(" | ");
    let c = make_cell("READ(B)", w, w);
    line.append(c.as_str());
    line.append(" | ");
    let c = make_cell("WRITTEN(B)", w, w);
    line.append(c.as_str());
    line.append(" | ");
    let c = make_cell("UPTIME(m)", w, w);
    line.append(c.as_str());
    line.append(" | ");
    let c = make_cell("STATUS", w, w);
    line.append(c.as_str());
    line.append(" | ");
    let c = make_cell("COMMAND", w, w);
    line.append(c.as_str());
    proof {
        reveal_strlit(" | ");
        assert(" | "@ =~= column_sep());
        assert(line@ =~= header_line_spec(w as nat));
    }
    line
}

/// Renders one record as its display row.
pub fn format_row(p: &ProcessRecord, w: usize) -> (r: String)
    requires
        w >= 3,
        2 * w <= usize::MAX,
    ensures
        r@ == row_line_spec(*p, w as nat),
{
    let pid_text = u64_to_dec(p.pid as u64);
    let mut line = make_cell(pid_text.as_str(), w, w);
    line.append(" | ");
    let c = make_cell(p.name.as_str(), w, w);
    line.append(c.as_str());
    line.append(" | ");
    let c = make_cell(p.cpu_text.as_str(), w, w);
    line.append(c.as_str());
    line.append(" | ");
    let read_text = u64_to_dec(p.read_bytes);
    let c = make_cell(read_text.as_str(), w, w);
    line.append(c.as_str());
    line.append(" | ");
    let written_text = u64_to_dec(p.written_bytes);
    let c = make_cell(written_text.as_str(), w, w);
    line.append(c.as_str());
    line.append(" | ");
    let elapsed_text = i64_to_dec(p.elapsed_minutes);
    let c = make_cell(elapsed_text.as_str(), w, w);
    line.append(c.as_str());
    line.append(" | ");
    let status_text = p.status.label();
    let c = make_cell(status_text.as_str(), w, w);
    line.append(c.as_str());
    line.append(" | ");
    let c = make_cell(p.cmd.as_str(), 2 * w, w);
    line.append(c.as_str());
    proof {
        reveal_strlit(" | ");
        assert(" | "@ =~= column_sep());
        assert(line@ =~= row_line_spec(*p, w as nat));
    }
    line
}

/// Lays out the full text grid of one redraw: the header line, the dash
/// separator spanning the table, and one line per selected record, in
/// the given order. Nothing is cached: the grid is rebuilt every cycle.
pub fn format_table(rows: &Vec<ProcessRecord>, width: usize) -> (r: Vec<String>)
    requires
        width >= 3,
        8 * width + 21 <= usize::MAX,
    ensures
        r@.len() == rows@.len() + 2,
        r@[0]@ == header_line_spec(width as nat),
        r@[1]@ == separator_line_spec(width as nat),
        forall|i: int|
            0 <= i < rows@.len() ==> r@[i + 2]@ == row_line_spec(#[trigger] rows@[i], width as nat),
{
    let mut out: Vec<String> = Vec::new();
    out.push(header_line(width));
    out.push(dash_line(8 * width + 21));
    let mut i: usize = 0;
    while i < rows.len()
        invariant
            width >= 3,
            8 * width + 21 <= usize::MAX,
            i <= rows.len(),
            out@.len() == i + 2,
            out@[0]@ == header_line_spec(width as nat),
            out@[1]@ == separator_line_spec(width as nat),
            forall|k: int|
                0 <= k < i ==> out@[k + 2]@ == row_line_spec(#[trigger] rows@[k], width as nat),
        decreases rows.len() - i,
    {
        let row = format_row(&rows[i], width);
        out.push(row);
        i += 1;
    }
    out
}

/// The line above the table naming the sampled host; an unavailable host
/// name falls back to a fixed label.
pub fn hostname_line(host: Option<String>) -> (r: String)
    ensures
        r@ == match host {
            Option::Some(h) => "System Hostname: "@ + h@,
            Option::None => "System Hostname: "@ + "N/A"@,
        },
{
    let mut out = String::from_str("System Hostname: ");
    match host {
        Option::Some(h) => out.append(h.as_str()),
        Option::None => out.append("N/A"),
    }
    out
}

} // verus!
