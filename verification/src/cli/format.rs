//! The text the command line prints for the daemon's replies: breakpoints,
//! stops, frames and variables, and memory dumps.

use crate::ipc::protocol::{
    BreakpointInfo, ContextResult, SourceLine, StackFrameInfo, StatusResult, StopResult, ThreadInfo, VariableInfo,
};
use crate::json::JsonValue;
use vstd::prelude::*;

verus! {

/// The view of an optional string.
pub open spec fn opt_text(o: Option<String>) -> Option<Seq<char>> {
    match o {
        Some(s) => Some(s@),
        None => None,
    }
}

/// An optional number in decimal, or `?`.
pub open spec fn number_or_mark(n: Option<u32>) -> Seq<char> {
    match n {
        Some(l) => crate::number::decimal_of(l as nat),
        None => "?"@,
    }
}

/// An optional text, or `?`.
pub open spec fn text_or_mark(o: Option<String>) -> Seq<char> {
    match o {
        Some(s) => s@,
        None => "?"@,
    }
}

/// A string's characters.
fn chars(s: &String) -> (r: Vec<char>)
    ensures
        r@ == s@,
{
    crate::text::chars_of(s.as_str())
}

/// Appends a number in decimal.
fn push_number(m: &mut Vec<char>, n: u64)
    ensures
        final(m)@ == old(m)@ + crate::number::decimal_of(n as nat),
{
    let d = crate::number::decimal_chars(n);
    crate::text::append(m, d.as_slice());
}

/// Appends an optional number in decimal, or `?`.
fn push_number_or_mark(m: &mut Vec<char>, n: Option<u32>)
    ensures
        final(m)@ == old(m)@ + number_or_mark(n),
{
    match n {
        Some(l) => push_number(m, l as u64),
        None => crate::text::append_str(m, "?"),
    }
}

/// Appends an optional text, or `?`.
fn push_text_or_mark(m: &mut Vec<char>, o: &Option<String>)
    ensures
        final(m)@ == old(m)@ + text_or_mark(*o),
{
    match o {
        Some(s) => crate::text::append_str(m, s.as_str()),
        None => crate::text::append_str(m, "?"),
    }
}

/// What is printed when a breakpoint was added: where it was set, or that
/// it is pending (with the adapter's message).
pub open spec fn breakpoint_added_text(info: BreakpointInfo) -> Seq<char> {
    if info.verified {
        "Breakpoint "@ + crate::number::decimal_of(info.id as nat) + " set at "@ + text_or_mark(info.source) + ":"@
            + number_or_mark(info.line)
    } else {
        "Breakpoint "@ + crate::number::decimal_of(info.id as nat) + " pending"@ + match info.message {
            Some(m) => ": "@ + m@,
            None => seq![],
        }
    }
}

/// The line printed when a breakpoint was added.
pub fn breakpoint_added(info: &BreakpointInfo) -> (r: String)
    ensures
        r@ == breakpoint_added_text(*info),
{
    let mut m = crate::text::chars_of("Breakpoint ");
    push_number(&mut m, info.id as u64);
    if info.verified {
        crate::text::append_str(&mut m, " set at ");
        push_text_or_mark(&mut m, &info.source);
        crate::text::append_str(&mut m, ":");
        push_number_or_mark(&mut m, info.line);
    } else {
        crate::text::append_str(&mut m, " pending");
        match &info.message {
            Some(msg) => {
                crate::text::append_str(&mut m, ": ");
                crate::text::append_str(&mut m, msg.as_str());
            },
            None => {
                proof {
                    assert(m@ + Seq::<char>::empty() =~= m@);
                }
            },
        }
    }
    crate::text::string_from(m.as_slice())
}

/// The mark of a breakpoint's status: verified, pending, or disabled.
pub open spec fn status_mark(info: BreakpointInfo) -> Seq<char> {
    if info.enabled {
        if info.verified {
            "✓"@
        } else {
            "?"@
        }
    } else {
        "○"@
    }
}

/// Where a breakpoint is, as listed.
pub open spec fn location_text(info: BreakpointInfo) -> Seq<char> {
    match (info.source, info.line) {
        (Some(s), Some(l)) => s@ + ":"@ + crate::number::decimal_of(l as nat),
        (Some(s), None) => s@,
        (None, Some(l)) => ":"@ + crate::number::decimal_of(l as nat),
        (None, None) => "unknown"@,
    }
}

/// The extra facts listed for a breakpoint: its condition, hit count and
/// message, those present, separated by `, `.
pub open spec fn extras_text(info: BreakpointInfo) -> Seq<char> {
    let parts = condition_part(info.condition) + hit_part(info.hit_count) + message_part(info.message);
    crate::text::joined(parts, ", "@)
}

/// The condition, as a listed fact.
pub open spec fn condition_part(c: Option<String>) -> Seq<Seq<char>> {
    match c {
        Some(c) => seq!["if "@ + c@],
        None => seq![],
    }
}

/// The hit count, as a listed fact.
pub open spec fn hit_part(h: Option<u32>) -> Seq<Seq<char>> {
    match h {
        Some(n) => seq!["hits: "@ + crate::number::decimal_of(n as nat)],
        None => seq![],
    }
}

/// The message, as a listed fact.
pub open spec fn message_part(m: Option<String>) -> Seq<Seq<char>> {
    match m {
        Some(m) => seq![m@],
        None => seq![],
    }
}

/// A breakpoint's line in a listing.
pub open spec fn breakpoint_line_text(info: BreakpointInfo) -> Seq<char> {
    let head = "  "@ + status_mark(info) + " "@ + crate::number::decimal_of(info.id as nat) + " "@ + location_text(info);
    if extras_text(info).len() == 0 {
        head
    } else {
        head + " ("@ + extras_text(info) + ")"@
    }
}

/// A breakpoint's line starts with two spaces and its mark: `?` for an
/// enabled breakpoint the adapter has not verified, `✓` exactly when it is
/// enabled and verified, `○` exactly when it is disabled.
pub proof fn law_breakpoint_mark(info: BreakpointInfo)
    ensures
        breakpoint_line_text(info).len() > 3,
        breakpoint_line_text(info)[0] == ' ' && breakpoint_line_text(info)[1] == ' ',
        info.enabled && !info.verified ==> breakpoint_line_text(info)[2] == '?',
        breakpoint_line_text(info)[2] == '✓' <==> info.enabled && info.verified,
        breakpoint_line_text(info)[2] == '○' <==> !info.enabled,
{
    reveal_strlit("  ");
    reveal_strlit(" ");
    reveal_strlit("✓");
    reveal_strlit("?");
    reveal_strlit("○");
    let head = "  "@ + status_mark(info) + " "@ + crate::number::decimal_of(info.id as nat) + " "@ + location_text(info);
    assert(head[2] == status_mark(info)[0]);
    assert(breakpoint_line_text(info)[2] == head[2]);
}

/// Where a breakpoint is, as listed.
fn location_chars(info: &BreakpointInfo) -> (r: Vec<char>)
    ensures
        r@ == location_text(*info),
{
    match (&info.source, info.line) {
        (Some(s), Some(l)) => {
            let mut m = chars(s);
            crate::text::append_str(&mut m, ":");
            push_number(&mut m, l as u64);
            m
        },
        (Some(s), None) => chars(s),
        (None, Some(l)) => {
            let mut m = crate::text::chars_of(":");
            push_number(&mut m, l as u64);
            m
        },
        (None, None) => crate::text::chars_of("unknown"),
    }
}

/// The extra facts listed for a breakpoint.
fn extras_chars(info: &BreakpointInfo) -> (r: Vec<char>)
    ensures
        r@ == extras_text(*info),
{
    let mut parts: Vec<Vec<char>> = Vec::new();
    let ghost p1 = condition_part(info.condition);
    let ghost p2 = hit_part(info.hit_count);
    let ghost p3 = message_part(info.message);
    if let Some(c) = &info.condition {
        let mut x = crate::text::chars_of("if ");
        crate::text::append_str(&mut x, c.as_str());
        parts.push(x);
    }
    proof {
        assert(crate::text::views(parts@) =~= p1);
    }
    if let Some(n) = info.hit_count {
        let mut x = crate::text::chars_of("hits: ");
        push_number(&mut x, n as u64);
        proof {
            crate::text::lemma_views_push(parts@, x);
        }
        parts.push(x);
    }
    proof {
        assert(crate::text::views(parts@) =~= p1 + p2);
    }
    if let Some(msg) = &info.message {
        let x = chars(msg);
        proof {
            crate::text::lemma_views_push(parts@, x);
        }
        parts.push(x);
    }
    proof {
        assert(crate::text::views(parts@) =~= p1 + p2 + p3);
    }
    let sep = crate::text::chars_of(", ");
    crate::text::join(parts.as_slice(), sep.as_slice())
}

/// A breakpoint's line in a listing: status mark, id, location, and the
/// extra facts in brackets when there are any.
pub fn breakpoint_line(info: &BreakpointInfo) -> (r: String)
    ensures
        r@ == breakpoint_line_text(*info),
{
    let mut m = crate::text::chars_of("  ");
    let mark = if info.enabled {
        if info.verified {
            "✓"
        } else {
            "?"
        }
    } else {
        "○"
    };
    crate::text::append_str(&mut m, mark);
    crate::text::append_str(&mut m, " ");
    push_number(&mut m, info.id as u64);
    crate::text::append_str(&mut m, " ");
    let loc = location_chars(info);
    crate::text::append(&mut m, loc.as_slice());
    let extras = extras_chars(info);
    if extras.len() > 0 {
        crate::text::append_str(&mut m, " (");
        crate::text::append(&mut m, extras.as_slice());
        crate::text::append_str(&mut m, ")");
    }
    crate::text::string_from(m.as_slice())
}

/// The decimal numbers of a list, as `Debug` shows it: `[1, 2, 3]`.
pub open spec fn id_list_text(ids: Seq<u32>) -> Seq<char> {
    "["@ + crate::text::joined(ids.map_values(|n: u32| crate::number::decimal_of(n as nat)), ", "@) + "]"@
}

/// The heading printed for a stop: what kind of stop it was.
pub open spec fn stop_head(stop: StopResult) -> Seq<char> {
    let r = stop.reason@;
    if r == "breakpoint"@ {
        "Stopped at breakpoint\n"@ + if stop.hit_breakpoint_ids@.len() > 0 {
            "  Breakpoint IDs: "@ + id_list_text(stop.hit_breakpoint_ids@) + "\n"@
        } else {
            seq![]
        }
    } else if r == "step"@ {
        "Step completed\n"@
    } else if r == "exception"@ || r == "signal"@ {
        "Stopped: "@ + match stop.description {
            Some(d) => d@,
            None => r,
        } + "\n"@
    } else if r == "pause"@ {
        "Paused\n"@
    } else if r == "entry"@ {
        "Stopped at entry point\n"@
    } else if r == "data breakpoint"@ || r == "watchpoint"@ {
        "Stopped: watchpoint hit\n"@
    } else {
        "Stopped: "@ + r + "\n"@
    }
}

/// The location line printed for a stop, when its place is known.
pub open spec fn stop_location(stop: StopResult) -> Seq<char> {
    match (stop.source, stop.line) {
        (Some(s), Some(l)) => "  Location: "@ + s@ + ":"@ + crate::number::decimal_of(l as nat) + "\n"@,
        _ => seq![],
    }
}

/// The lines printed for a stop: what kind of stop it was, then its
/// location when known.
pub open spec fn stop_text(stop: StopResult) -> Seq<char> {
    stop_head(stop) + stop_location(stop)
}

/// The heading printed for a stop follows its reason: `step` gives `Step
/// completed`, `pause` gives `Paused`, `entry` gives `Stopped at entry
/// point`, `breakpoint` gives `Stopped at breakpoint`; and the text starts
/// with `P` (as `Paused` does) only for the reason `pause`.
pub proof fn law_stop_heading(stop: StopResult)
    ensures
        stop.reason@ == "step"@ ==> stop_text(stop).take(15) == "Step completed\n"@,
        stop.reason@ == "pause"@ ==> stop_text(stop).take(7) == "Paused\n"@,
        stop.reason@ == "entry"@ ==> stop_text(stop).take(23) == "Stopped at entry point\n"@,
        stop.reason@ == "breakpoint"@ ==> stop_text(stop).take(22) == "Stopped at breakpoint\n"@,
        stop_text(stop).len() > 0 && (stop_text(stop)[0] == 'P' <==> stop.reason@ == "pause"@),
{
    reveal_strlit("breakpoint");
    reveal_strlit("step");
    reveal_strlit("exception");
    reveal_strlit("signal");
    reveal_strlit("pause");
    reveal_strlit("entry");
    reveal_strlit("data breakpoint");
    reveal_strlit("watchpoint");
    reveal_strlit("Stopped at breakpoint\n");
    reveal_strlit("Step completed\n");
    reveal_strlit("Stopped: ");
    reveal_strlit("Paused\n");
    reveal_strlit("Stopped at entry point\n");
    reveal_strlit("Stopped: watchpoint hit\n");
    let r = stop.reason@;
    let t = stop_text(stop);
    let head = stop_head(stop);
    assert(t == head + stop_location(stop));
    assert(head.len() > 0);
    assert(t[0] == head[0]);
    if r == "step"@ {
        assert(r != "breakpoint"@) by {
            assert(r.len() != "breakpoint"@.len());
        }
        assert(head == "Step completed\n"@);
        assert(t.take(15) =~= head);
    }
    if r == "pause"@ {
        assert(r.len() == 5);
        assert(r != "breakpoint"@ && r != "step"@ && r != "exception"@ && r != "signal"@);
        assert(head == "Paused\n"@);
        assert(t.take(7) =~= head);
    }
    if r == "entry"@ {
        assert(r.len() == 5);
        assert(r != "breakpoint"@ && r != "step"@ && r != "exception"@ && r != "signal"@);
        assert(r != "pause"@) by {
            assert(r[0] != "pause"@[0]);
        }
        assert(head == "Stopped at entry point\n"@);
        assert(t.take(23) =~= head);
    }
    if r == "breakpoint"@ {
        assert(t.take(22) =~= "Stopped at breakpoint\n"@);
    }
    if r != "pause"@ {
        assert(head[0] == 'S');
    }
}

/// The lines printed for a stop.
pub fn stop_lines(stop: &StopResult) -> (r: String)
    ensures
        r@ == stop_text(*stop),
{
    let reason = chars(&stop.reason);
    let r = reason.as_slice();
    let mut m: Vec<char> = Vec::new();
    if crate::text::eq_str(r, "breakpoint") {
        crate::text::append_str(&mut m, "Stopped at breakpoint\n");
        if stop.hit_breakpoint_ids.len() > 0 {
            crate::text::append_str(&mut m, "  Breakpoint IDs: ");
            let ids = id_list(&stop.hit_breakpoint_ids);
            crate::text::append(&mut m, ids.as_slice());
            crate::text::append_str(&mut m, "\n");
        } else {
            proof {
                assert(m@ + Seq::<char>::empty() =~= m@);
            }
        }
    } else if crate::text::eq_str(r, "step") {
        crate::text::append_str(&mut m, "Step completed\n");
    } else if crate::text::eq_str(r, "exception") || crate::text::eq_str(r, "signal") {
        crate::text::append_str(&mut m, "Stopped: ");
        match &stop.description {
            Some(d) => crate::text::append_str(&mut m, d.as_str()),
            None => crate::text::append(&mut m, r),
        }
        crate::text::append_str(&mut m, "\n");
    } else if crate::text::eq_str(r, "pause") {
        crate::text::append_str(&mut m, "Paused\n");
    } else if crate::text::eq_str(r, "entry") {
        crate::text::append_str(&mut m, "Stopped at entry point\n");
    } else if crate::text::eq_str(r, "data breakpoint") || crate::text::eq_str(r, "watchpoint") {
        crate::text::append_str(&mut m, "Stopped: watchpoint hit\n");
    } else {
        crate::text::append_str(&mut m, "Stopped: ");
        crate::text::append(&mut m, r);
        crate::text::append_str(&mut m, "\n");
    }
    proof {
        assert(Seq::<char>::empty() + m@ =~= m@);
    }
    match (&stop.source, stop.line) {
        (Some(s), Some(l)) => {
            crate::text::append_str(&mut m, "  Location: ");
            crate::text::append_str(&mut m, s.as_str());
            crate::text::append_str(&mut m, ":");
            push_number(&mut m, l as u64);
            crate::text::append_str(&mut m, "\n");
        },
        _ => {
            proof {
                assert(m@ + Seq::<char>::empty() =~= m@);
            }
        },
    }
    crate::text::string_from(m.as_slice())
}

/// A list of ids as `Debug` shows it.
fn id_list(ids: &Vec<u32>) -> (r: Vec<char>)
    ensures
        r@ == id_list_text(ids@),
{
    let mut parts: Vec<Vec<char>> = Vec::new();
    let mut k: usize = 0;
    while k < ids.len()
        invariant
            k <= ids@.len(),
            crate::text::views(parts@) == ids@.take(k as int).map_values(|n: u32| crate::number::decimal_of(n as nat)),
        decreases ids@.len() - k,
    {
        let d = crate::number::decimal_chars(ids[k] as u64);
        proof {
            crate::text::lemma_views_push(parts@, d);
            assert(ids@.take(k + 1).map_values(|n: u32| crate::number::decimal_of(n as nat)) =~= ids@.take(
                k as int,
            ).map_values(|n: u32| crate::number::decimal_of(n as nat)).push(crate::number::decimal_of(ids@[k as int] as nat)));
        }
        parts.push(d);
        k = k + 1;
    }
    proof {
        assert(ids@.take(ids@.len() as int) =~= ids@);
    }
    let sep = crate::text::chars_of(", ");
    let body = crate::text::join(parts.as_slice(), sep.as_slice());
    let mut m = crate::text::chars_of("[");
    crate::text::append(&mut m, body.as_slice());
    crate::text::append_str(&mut m, "]");
    m
}

/// A frame's line in a backtrace: `#i name at file:line`.
pub open spec fn frame_text(index: nat, frame: StackFrameInfo) -> Seq<char> {
    "#"@ + crate::number::decimal_of(index) + " "@ + frame.name@ + " at "@ + text_or_mark(frame.source) + ":"@
        + number_or_mark(frame.line)
}

/// A frame's line in a backtrace.
pub fn frame_line(index: usize, frame: &StackFrameInfo) -> (r: String)
    ensures
        r@ == frame_text(index as nat, *frame),
{
    let mut m = crate::text::chars_of("#");
    push_number(&mut m, index as u64);
    crate::text::append_str(&mut m, " ");
    crate::text::append_str(&mut m, frame.name.as_str());
    crate::text::append_str(&mut m, " at ");
    push_text_or_mark(&mut m, &frame.source);
    crate::text::append_str(&mut m, ":");
    push_number_or_mark(&mut m, frame.line);
    crate::text::string_from(m.as_slice())
}

/// A variable's line: `name = value` and the type in brackets when known.
pub open spec fn variable_text(var: VariableInfo) -> Seq<char> {
    var.name@ + " = "@ + var.value@ + match var.value_type {
        Some(t) => " ("@ + t@ + ")"@,
        None => seq![],
    }
}

/// A variable's line.
pub fn variable_line(var: &VariableInfo) -> (r: String)
    ensures
        r@ == variable_text(*var),
{
    let mut m = chars(&var.name);
    crate::text::append_str(&mut m, " = ");
    crate::text::append_str(&mut m, var.value.as_str());
    match &var.value_type {
        Some(t) => {
            crate::text::append_str(&mut m, " (");
            crate::text::append_str(&mut m, t.as_str());
            crate::text::append_str(&mut m, ")");
        },
        None => {
            proof {
                assert(m@ + Seq::<char>::empty() =~= m@);
            }
        },
    }
    crate::text::string_from(m.as_slice())
}

/// A lowercase hexadecimal digit.
pub open spec fn hex_digit(d: nat) -> char {
    if d < 10 {
        crate::number::digit_char(d)
    } else if d == 10 {
        'a'
    } else if d == 11 {
        'b'
    } else if d == 12 {
        'c'
    } else if d == 13 {
        'd'
    } else if d == 14 {
        'e'
    } else {
        'f'
    }
}

/// `n` in lowercase hexadecimal, without leading zeros.
pub open spec fn hex_of(n: nat) -> Seq<char>
    decreases n,
{
    if n < 16 {
        seq![hex_digit(n)]
    } else {
        hex_of(n / 16).push(hex_digit(n % 16))
    }
}

/// `s` padded on the left with `c` to at least `w` characters.
pub open spec fn pad_left(s: Seq<char>, w: nat, c: char) -> Seq<char> {
    if s.len() >= w {
        s
    } else {
        Seq::new((w - s.len()) as nat, |i: int| c) + s
    }
}

/// How a byte shows in the text column: itself when printable ASCII, else
/// a dot.
pub open spec fn shown_byte(b: u8) -> char {
    if 0x20 <= b < 0x7f {
        b as char
    } else {
        '.'
    }
}

/// The text column of some bytes.
pub open spec fn ascii_of(bytes: Seq<u8>) -> Seq<char> {
    bytes.map_values(|b: u8| shown_byte(b))
}

/// The hex cells of a row, from cell `j` on: two digits and a space each,
/// with one more space after the eighth.
pub open spec fn hex_cells(chunk: Seq<u8>, j: int) -> Seq<char>
    decreases chunk.len() - j,
{
    if j < 0 || j >= chunk.len() {
        seq![]
    } else {
        pad_left(hex_of(chunk[j] as nat), 2, '0') + " "@ + (if j == 7 { " "@ } else { seq![] }) + hex_cells(chunk, j + 1)
    }
}

/// The blank cells that fill a short row, from cell `j` to the sixteenth.
pub open spec fn blank_cells(j: int) -> Seq<char>
    decreases 16 - j,
{
    if j < 0 || j >= 16 {
        seq![]
    } else {
        "   "@ + (if j == 7 { " "@ } else { seq![] }) + blank_cells(j + 1)
    }
}

/// A row of a hex dump: the offset in eight hex digits, the cells, and the
/// text column between bars.
pub open spec fn hex_row(chunk: Seq<u8>, offset: nat) -> Seq<char> {
    pad_left(hex_of(offset), 8, '0') + "  "@ + hex_cells(chunk, 0) + blank_cells(chunk.len() as int) + " |"@
        + ascii_of(chunk) + "|\n"@
}

/// The rows of a hex dump of `data`, the first being row `i`.
pub open spec fn hex_rows(data: Seq<u8>, i: nat) -> Seq<char>
    decreases data.len(),
{
    if data.len() == 0 {
        seq![]
    } else {
        let n: int = if data.len() < 16 { data.len() as int } else { 16 };
        hex_row(data.take(n), 16 * i) + hex_rows(data.skip(n), i + 1)
    }
}

/// The decimal dump from byte `i` on: each byte right-aligned in three
/// columns and a space, sixteen to a line.
pub open spec fn decimal_cells(data: Seq<u8>, i: int) -> Seq<char>
    decreases data.len() - i,
{
    if i < 0 || i >= data.len() {
        seq![]
    } else {
        (if i > 0 && i % 16 == 0 { "\n"@ } else { seq![] }) + pad_left(crate::number::decimal_of(data[i] as nat), 3, ' ')
            + " "@ + decimal_cells(data, i + 1)
    }
}

/// The text of a memory dump in a format: `hex` (or `h`, and anything not
/// known), `decimal` (or `d`), `ascii` (or `a`); the format's case does not
/// matter.
pub open spec fn memory_dump(data: Seq<u8>, format: Seq<char>) -> Seq<char> {
    let f = crate::text::lowercase_of(format);
    if f == "decimal"@ || f == "d"@ {
        decimal_cells(data, 0) + "\n"@
    } else if f == "ascii"@ || f == "a"@ {
        ascii_of(data) + "\n"@
    } else {
        hex_rows(data, 0)
    }
}

/// A hexadecimal digit's character.
fn hex_digit_char(d: u64) -> (c: char)
    requires
        d < 16,
    ensures
        c == hex_digit(d as nat),
{
    if d < 10 {
        let v = crate::number::decimal_chars(d);
        v[0]
    } else if d == 10 {
        'a'
    } else if d == 11 {
        'b'
    } else if d == 12 {
        'c'
    } else if d == 13 {
        'd'
    } else if d == 14 {
        'e'
    } else {
        'f'
    }
}

/// `n` in lowercase hexadecimal.
pub(crate) fn hex_chars(n: u64) -> (r: Vec<char>)
    ensures
        r@ == hex_of(n as nat),
    decreases n,
{
    if n < 16 {
        let mut v: Vec<char> = Vec::new();
        v.push(hex_digit_char(n));
        proof {
            assert(v@ =~= seq![hex_digit(n as nat)]);
        }
        v
    } else {
        let mut v = hex_chars(n / 16);
        v.push(hex_digit_char(n % 16));
        v
    }
}

/// Appends `s` padded on the left with `c` to at least `w` characters.
fn push_padded(m: &mut Vec<char>, s: &Vec<char>, w: usize, c: char)
    ensures
        final(m)@ == old(m)@ + pad_left(s@, w as nat, c),
{
    let ghost start = m@;
    if s.len() < w {
        let mut k: usize = 0;
        let n = w - s.len();
        while k < n
            invariant
                k <= n,
                n == w - s@.len(),
                m@ == start + Seq::new(k as nat, |i: int| c),
            decreases n - k,
        {
            m.push(c);
            k = k + 1;
            proof {
                assert(m@ =~= start + Seq::new(k as nat, |i: int| c));
            }
        }
    }
    crate::text::append(m, s.as_slice());
    proof {
        if s@.len() < w {
            assert(start + Seq::new((w - s@.len()) as nat, |i: int| c) + s@ =~= start + (Seq::new(
                (w - s@.len()) as nat,
                |i: int| c,
            ) + s@));
        }
    }
}

/// How a byte shows in the text column.
fn shown(b: u8) -> (c: char)
    ensures
        c == shown_byte(b),
{
    if 0x20 <= b && b < 0x7f {
        b as char
    } else {
        '.'
    }
}

/// Appends the text column of some bytes.
fn push_ascii(m: &mut Vec<char>, bytes: &[u8])
    ensures
        final(m)@ == old(m)@ + ascii_of(bytes@),
{
    let ghost start = m@;
    let mut k: usize = 0;
    while k < bytes.len()
        invariant
            k <= bytes@.len(),
            m@ == start + ascii_of(bytes@.take(k as int)),
        decreases bytes@.len() - k,
    {
        m.push(shown(bytes[k]));
        proof {
            assert(ascii_of(bytes@.take(k + 1)) =~= ascii_of(bytes@.take(k as int)).push(shown_byte(bytes@[k as int])));
        }
        k = k + 1;
    }
    proof {
        assert(bytes@.take(bytes@.len() as int) =~= bytes@);
    }
}

/// Appends one row of a hex dump.
fn push_hex_row(m: &mut Vec<char>, chunk: &[u8], offset: u64)
    requires
        chunk@.len() <= 16,
    ensures
        final(m)@ == old(m)@ + hex_row(chunk@, offset as nat),
{
    let ghost start = m@;
    let off = hex_chars(offset);
    push_padded(m, &off, 8, '0');
    crate::text::append_str(m, "  ");
    let ghost head = m@;
    let mut j: usize = 0;
    proof {
        reveal_strlit(" ");
        reveal_strlit("   ");
    }
    while j < chunk.len()
        invariant
            j <= chunk@.len(),
            chunk@.len() <= 16,
            m@ + hex_cells(chunk@, j as int) == head + hex_cells(chunk@, 0),
        decreases chunk@.len() - j,
    {
        let ghost before = m@;
        let h = hex_chars(chunk[j] as u64);
        push_padded(m, &h, 2, '0');
        m.push(' ');
        if j == 7 {
            m.push(' ');
        }
        proof {
            reveal_strlit(" ");
            let cell = pad_left(hex_of(chunk@[j as int] as nat), 2, '0') + " "@ + (if j == 7 { " "@ } else { seq![] });
            assert(m@ =~= before + cell);
            assert(before + (cell + hex_cells(chunk@, j + 1)) =~= before + cell + hex_cells(chunk@, j + 1));
        }
        j = j + 1;
    }
    proof {
        assert(m@ + Seq::<char>::empty() =~= m@);
    }
    let ghost mid = m@;
    let mut j2: usize = chunk.len();
    while j2 < 16
        invariant
            chunk@.len() <= j2 <= 16,
            m@ + blank_cells(j2 as int) == mid + blank_cells(chunk@.len() as int),
        decreases 16 - j2,
    {
        let ghost before = m@;
        crate::text::append_str(m, "   ");
        if j2 == 7 {
            m.push(' ');
        }
        proof {
            reveal_strlit(" ");
            reveal_strlit("   ");
            let cell = "   "@ + (if j2 == 7 { " "@ } else { seq![] });
            assert(m@ =~= before + cell);
            assert(before + (cell + blank_cells(j2 + 1)) =~= before + cell + blank_cells(j2 + 1));
        }
        j2 = j2 + 1;
    }
    proof {
        assert(m@ + Seq::<char>::empty() =~= m@);
    }
    crate::text::append_str(m, " |");
    push_ascii(m, chunk);
    crate::text::append_str(m, "|\n");
    proof {
        assert(m@ =~= start + hex_row(chunk@, offset as nat));
    }
}

/// The text of a memory dump in a format.
pub fn memory_text(data: &[u8], format: &str) -> (r: String)
    ensures
        r@ == memory_dump(data@, format@),
{
    let fc = crate::text::chars_of(format);
    let f = crate::text::to_lowercase(fc.as_slice());
    let mut m: Vec<char> = Vec::new();
    if crate::text::eq_str(f.as_slice(), "decimal") || crate::text::eq_str(f.as_slice(), "d") {
        let mut i: usize = 0;
        while i < data.len()
            invariant
                i <= data@.len(),
                m@ + decimal_cells(data@, i as int) == decimal_cells(data@, 0),
            decreases data@.len() - i,
        {
            let ghost before = m@;
            if i > 0 && i % 16 == 0 {
                m.push('\n');
            }
            let d = crate::number::decimal_chars(data[i] as u64);
            push_padded(&mut m, &d, 3, ' ');
            m.push(' ');
            proof {
                reveal_strlit("\n");
                reveal_strlit(" ");
                let cell = (if i > 0 && i % 16 == 0 { "\n"@ } else { seq![] }) + pad_left(
                    crate::number::decimal_of(data@[i as int] as nat),
                    3,
                    ' ',
                ) + " "@;
                assert(m@ =~= before + cell);
                assert(before + (cell + decimal_cells(data@, i + 1)) =~= before + cell + decimal_cells(data@, i + 1));
            }
            i = i + 1;
        }
        proof {
            assert(m@ + Seq::<char>::empty() =~= m@);
        }
        crate::text::append_str(&mut m, "\n");
    } else if crate::text::eq_str(f.as_slice(), "ascii") || crate::text::eq_str(f.as_slice(), "a") {
        push_ascii(&mut m, data);
        crate::text::append_str(&mut m, "\n");
        proof {
            assert(Seq::<char>::empty() + ascii_of(data@) =~= ascii_of(data@));
        }
    } else {
        let mut start: usize = 0;
        let mut row: u64 = 0;
        proof {
            assert(data@.skip(0) =~= data@);
        }
        while start < data.len()
            invariant
                start <= data@.len(),
                start < data@.len() ==> start == 16 * row,
                m@ + hex_rows(data@.skip(start as int), row as nat) == hex_rows(data@, 0),
            decreases data@.len() - start,
        {
            let end = if data.len() - start < 16 {
                data.len()
            } else {
                start + 16
            };
            let chunk = vstd::slice::slice_subrange(data, start, end);
            let ghost before = m@;
            let ghost rest = data@.skip(start as int);
            push_hex_row(&mut m, chunk, 16 * row);
            proof {
                let n: int = if rest.len() < 16 { rest.len() as int } else { 16 };
                assert(chunk@ =~= rest.take(n));
                assert(rest.skip(n) =~= data@.skip(end as int));
                assert(before + (hex_row(rest.take(n), 16 * row as nat) + hex_rows(rest.skip(n), row as nat + 1)) =~= before
                    + hex_row(rest.take(n), 16 * row as nat) + hex_rows(rest.skip(n), row as nat + 1));
            }
            start = end;
            row = row + 1;
        }
        proof {
            assert(data@.skip(start as int) =~= Seq::<u8>::empty());
            assert(m@ + Seq::<char>::empty() =~= m@);
        }
    }
    crate::text::string_from(m.as_slice())
}

/// The lines of a listing, each after a line break and an indent.
pub open spec fn thread_lines(ts: Seq<ThreadInfo>) -> Seq<char>
    decreases ts.len(),
{
    if ts.len() == 0 {
        seq![]
    } else {
        thread_lines(ts.drop_last()) + "\n  "@ + crate::number::signed_decimal_of(ts.last().id as int) + " - "@
            + ts.last().name@
    }
}

/// What the threads command prints.
pub open spec fn threads_text_spec(ts: Seq<ThreadInfo>) -> Seq<char> {
    if ts.len() == 0 {
        "No threads"@
    } else {
        "Threads:"@ + thread_lines(ts)
    }
}

/// The text of the threads command.
pub fn threads_text(threads: &[ThreadInfo]) -> (r: String)
    ensures
        r@ == threads_text_spec(threads@),
{
    if threads.len() == 0 {
        return String::from_str("No threads");
    }
    let mut m = crate::text::chars_of("Threads:");
    let mut k: usize = 0;
    while k < threads.len()
        invariant
            k <= threads@.len(),
            m@ == "Threads:"@ + thread_lines(threads@.take(k as int)),
        decreases threads@.len() - k,
    {
        proof {
            assert(threads@.take(k + 1).drop_last() =~= threads@.take(k as int));
        }
        crate::text::append_str(&mut m, "\n  ");
        let d = crate::number::signed_decimal_chars(threads[k].id);
        crate::text::append(&mut m, d.as_slice());
        crate::text::append_str(&mut m, " - ");
        crate::text::append_str(&mut m, threads[k].name.as_str());
        k = k + 1;
    }
    proof {
        assert(threads@.take(threads@.len() as int) =~= threads@);
    }
    crate::text::string_from(m.as_slice())
}

/// Variables' lines, each after a line break and an indent.
pub open spec fn variable_lines(vs: Seq<VariableInfo>) -> Seq<char>
    decreases vs.len(),
{
    if vs.len() == 0 {
        seq![]
    } else {
        variable_lines(vs.drop_last()) + "\n  "@ + variable_text(vs.last())
    }
}

/// Appends the variables' lines.
fn push_variable_lines(m: &mut Vec<char>, vars: &[VariableInfo])
    ensures
        final(m)@ == old(m)@ + variable_lines(vars@),
{
    let ghost start = m@;
    let mut k: usize = 0;
    while k < vars.len()
        invariant
            k <= vars@.len(),
            m@ == start + variable_lines(vars@.take(k as int)),
        decreases vars@.len() - k,
    {
        proof {
            assert(vars@.take(k + 1).drop_last() =~= vars@.take(k as int));
        }
        crate::text::append_str(m, "\n  ");
        let line = variable_line(&vars[k]);
        crate::text::append_str(m, line.as_str());
        k = k + 1;
    }
    proof {
        assert(vars@.take(vars@.len() as int) =~= vars@);
    }
}

/// What the locals command prints.
pub open spec fn locals_text_spec(vs: Seq<VariableInfo>) -> Seq<char> {
    if vs.len() == 0 {
        "No local variables"@
    } else {
        "Local variables:"@ + variable_lines(vs)
    }
}

/// The text of the locals command.
pub fn locals_text(vars: &[VariableInfo]) -> (r: String)
    ensures
        r@ == locals_text_spec(vars@),
{
    if vars.len() == 0 {
        return String::from_str("No local variables");
    }
    let mut m = crate::text::chars_of("Local variables:");
    push_variable_lines(&mut m, vars);
    crate::text::string_from(m.as_slice())
}

/// Breakpoints' lines, each after a line break.
pub open spec fn breakpoint_lines(bs: Seq<BreakpointInfo>) -> Seq<char>
    decreases bs.len(),
{
    if bs.len() == 0 {
        seq![]
    } else {
        breakpoint_lines(bs.drop_last()) + "\n"@ + breakpoint_line_text(bs.last())
    }
}

/// What listing the breakpoints prints.
pub open spec fn breakpoints_text_spec(bs: Seq<BreakpointInfo>) -> Seq<char> {
    if bs.len() == 0 {
        "No breakpoints set"@
    } else {
        "Breakpoints:"@ + breakpoint_lines(bs)
    }
}

/// The text of the breakpoint listing.
pub fn breakpoints_text(list: &[BreakpointInfo]) -> (r: String)
    ensures
        r@ == breakpoints_text_spec(list@),
{
    if list.len() == 0 {
        return String::from_str("No breakpoints set");
    }
    let mut m = crate::text::chars_of("Breakpoints:");
    let mut k: usize = 0;
    while k < list.len()
        invariant
            k <= list@.len(),
            m@ == "Breakpoints:"@ + breakpoint_lines(list@.take(k as int)),
        decreases list@.len() - k,
    {
        proof {
            assert(list@.take(k + 1).drop_last() =~= list@.take(k as int));
        }
        crate::text::append_str(&mut m, "\n");
        let line = breakpoint_line(&list[k]);
        crate::text::append_str(&mut m, line.as_str());
        k = k + 1;
    }
    proof {
        assert(list@.take(list@.len() as int) =~= list@);
    }
    crate::text::string_from(m.as_slice())
}

/// A source line of the context view: a marker on the current line, the
/// number right-aligned in four places, and the text.
pub open spec fn source_line_text(l: SourceLine) -> Seq<char> {
    (if l.is_current {
        "->"@
    } else {
        "  "@
    }) + " "@ + pad_left(crate::number::decimal_of(l.number as nat), 4, ' ') + " | "@ + l.content@ + "\n"@
}

/// The source lines of the context view, in order.
pub open spec fn source_lines_text(ls: Seq<SourceLine>) -> Seq<char>
    decreases ls.len(),
{
    if ls.len() == 0 {
        seq![]
    } else {
        source_lines_text(ls.drop_last()) + source_line_text(ls.last())
    }
}

/// What the context command prints: where the thread stopped, the
/// function, a blank line, the source lines, and the locals when there are
/// any; every line ends with a line break.
pub open spec fn context_text_spec(ctx: ContextResult) -> Seq<char> {
    (match ctx.source {
        Some(s) => "Thread "@ + crate::number::signed_decimal_of(ctx.thread_id as int) + " stopped at "@ + s@ + ":"@
            + crate::number::decimal_of(ctx.line as nat) + "\n"@,
        None => seq![],
    }) + (match ctx.function {
        Some(f) => "In function: "@ + f@ + "\n"@,
        None => seq![],
    }) + "\n"@ + source_lines_text(ctx.source_lines@) + (if ctx.locals@.len() == 0 {
        seq![]
    } else {
        "\nLocals:"@ + variable_lines(ctx.locals@) + "\n"@
    })
}

/// The text of the context view.
pub fn context_text(ctx: &ContextResult) -> (r: String)
    ensures
        r@ == context_text_spec(*ctx),
{
    let mut m: Vec<char> = Vec::new();
    match &ctx.source {
        Some(s) => {
            crate::text::append_str(&mut m, "Thread ");
            let d = crate::number::signed_decimal_chars(ctx.thread_id);
            crate::text::append(&mut m, d.as_slice());
            crate::text::append_str(&mut m, " stopped at ");
            crate::text::append_str(&mut m, s.as_str());
            crate::text::append_str(&mut m, ":");
            push_number(&mut m, ctx.line as u64);
            crate::text::append_str(&mut m, "\n");
        },
        None => {},
    }
    match &ctx.function {
        Some(f) => {
            crate::text::append_str(&mut m, "In function: ");
            crate::text::append_str(&mut m, f.as_str());
            crate::text::append_str(&mut m, "\n");
        },
        None => {},
    }
    crate::text::append_str(&mut m, "\n");
    let ghost head = m@;
    let ls = &ctx.source_lines;
    let mut k: usize = 0;
    while k < ls.len()
        invariant
            k <= ls@.len(),
            m@ == head + source_lines_text(ls@.take(k as int)),
        decreases ls@.len() - k,
    {
        proof {
            assert(ls@.take(k + 1).drop_last() =~= ls@.take(k as int));
        }
        let l = &ls[k];
        let ghost before = m@;
        if l.is_current {
            crate::text::append_str(&mut m, "->");
        } else {
            crate::text::append_str(&mut m, "  ");
        }
        crate::text::append_str(&mut m, " ");
        let d = crate::number::decimal_chars(l.number as u64);
        push_padded(&mut m, &d, 4, ' ');
        crate::text::append_str(&mut m, " | ");
        crate::text::append_str(&mut m, l.content.as_str());
        crate::text::append_str(&mut m, "\n");
        proof {
            assert(m@ =~= before + source_line_text(*l));
            assert(ls@.take(k + 1).last() == *l);
        }
        k = k + 1;
    }
    proof {
        assert(ls@.take(ls@.len() as int) =~= ls@);
    }
    if ctx.locals.len() > 0 {
        crate::text::append_str(&mut m, "\nLocals:");
        push_variable_lines(&mut m, ctx.locals.as_slice());
        crate::text::append_str(&mut m, "\n");
    }
    crate::text::string_from(m.as_slice())
}

/// A labelled line for an optional text, or nothing.
pub open spec fn opt_line(label: Seq<char>, o: Option<String>) -> Seq<char> {
    match o {
        Some(v) => label + v@ + "\n"@,
        None => seq![],
    }
}

/// Appends a labelled line for an optional text.
fn push_opt_line(m: &mut Vec<char>, label: &str, o: &Option<String>)
    ensures
        final(m)@ == old(m)@ + opt_line(label@, *o),
{
    match o {
        Some(v) => {
            crate::text::append_str(m, label);
            crate::text::append_str(m, v.as_str());
            crate::text::append_str(m, "\n");
        },
        None => {
            proof {
                assert(m@ + Seq::<char>::empty() =~= m@);
            }
        },
    }
}

/// What the status command prints: `None` when the daemon is not running,
/// else what it reported; every line ends with a line break.
pub open spec fn status_text_spec(status: Option<StatusResult>) -> Seq<char> {
    match status {
        None => "Daemon: not running\n"@ + "Session: none\n"@,
        Some(st) => "Daemon: running\n"@ + if st.session_active {
            "Session: active\n"@ + opt_line("Program: "@, st.program) + opt_line("Adapter: "@, st.adapter) + opt_line(
                "State: "@,
                st.state,
            ) + opt_line("Stopped reason: "@, st.stopped_reason) + match st.stopped_thread {
                Some(t) => "Stopped thread: "@ + crate::number::signed_decimal_of(t as int) + "\n"@,
                None => seq![],
            }
        } else {
            "Session: none\n"@
        },
    }
}

/// The text of the status command.
pub fn status_text(status: &Option<StatusResult>) -> (r: String)
    ensures
        r@ == status_text_spec(*status),
{
    let mut m: Vec<char> = Vec::new();
    match status {
        None => {
            crate::text::append_str(&mut m, "Daemon: not running\n");
            crate::text::append_str(&mut m, "Session: none\n");
        },
        Some(st) => {
            crate::text::append_str(&mut m, "Daemon: running\n");
            let ghost head = m@;
            if st.session_active {
                crate::text::append_str(&mut m, "Session: active\n");
                push_opt_line(&mut m, "Program: ", &st.program);
                push_opt_line(&mut m, "Adapter: ", &st.adapter);
                push_opt_line(&mut m, "State: ", &st.state);
                push_opt_line(&mut m, "Stopped reason: ", &st.stopped_reason);
                let ghost mid = m@;
                match st.stopped_thread {
                    Some(t) => {
                        crate::text::append_str(&mut m, "Stopped thread: ");
                        let d = crate::number::signed_decimal_chars(t);
                        crate::text::append(&mut m, d.as_slice());
                        crate::text::append_str(&mut m, "\n");
                    },
                    None => {
                        proof {
                            assert(m@ + Seq::<char>::empty() =~= m@);
                        }
                    },
                }
                proof {
                    assert(m@ =~= status_text_spec(*status));
                }
            } else {
                crate::text::append_str(&mut m, "Session: none\n");
            }
        },
    }
    crate::text::string_from(m.as_slice())
}

/// What the command line shows for the answer to `await`.
pub enum AwaitShown {
    /// This line.
    Text(String),
    /// The stop, as `stop_lines` writes it.
    Stop,
    /// Nothing.
    Nothing,
}

/// The stop reason in an answer to `await`, when it has one.
pub open spec fn await_reason(result: JsonValue) -> Option<Seq<char>> {
    match crate::json::member(result, "reason"@) {
        Some(JsonValue::Str(s)) => Some(s@),
        _ => None,
    }
}

/// The exit code in an answer to `await`, or 0.
pub open spec fn await_exit_code(result: JsonValue) -> i64 {
    match crate::json::member(result, "exit_code"@) {
        Some(JsonValue::Number(n)) => n,
        _ => 0,
    }
}

/// What to show for an answer to `await`: that the program was already
/// stopped (with the reason, or `unknown`), that it exited (with the code,
/// 0 when missing) or terminated, the stop itself for any other reason,
/// and nothing without a reason.
pub fn await_shown(result: &JsonValue) -> (r: AwaitShown)
    ensures
        crate::json::member(*result, "already_stopped"@) == Some(JsonValue::Bool(true)) ==> (r matches AwaitShown::Text(
            t,
        ) && t@ == "Program was already stopped: "@ + match await_reason(*result) {
            Some(s) => s,
            None => "unknown"@,
        }),
        crate::json::member(*result, "already_stopped"@) != Some(JsonValue::Bool(true)) ==> match await_reason(*result) {
            Some(s) => if s == "exited"@ {
                r matches AwaitShown::Text(t) && t@ == "Program exited with code "@ + crate::number::signed_decimal_of(
                    await_exit_code(*result) as int,
                )
            } else if s == "terminated"@ {
                r matches AwaitShown::Text(t) && t@ == "Program terminated"@
            } else {
                r is Stop
            },
            None => r is Nothing,
        },
{
    let already = crate::json::get_bool(result, "already_stopped");
    let reason = crate::json::get_str(result, "reason");
    if already == Some(true) {
        let mut m = crate::text::chars_of("Program was already stopped: ");
        match &reason {
            Some(s) => crate::text::append_str(&mut m, s.as_str()),
            None => crate::text::append_str(&mut m, "unknown"),
        }
        return AwaitShown::Text(crate::text::string_from(m.as_slice()));
    }
    match reason {
        Some(s) => {
            let cs = crate::text::chars_of(s.as_str());
            if crate::text::eq_str(cs.as_slice(), "exited") {
                let code = match crate::json::get_i64(result, "exit_code") {
                    Some(c) => c,
                    None => 0,
                };
                let mut m = crate::text::chars_of("Program exited with code ");
                let d = crate::number::signed_decimal_chars(code);
                crate::text::append(&mut m, d.as_slice());
                AwaitShown::Text(crate::text::string_from(m.as_slice()))
            } else if crate::text::eq_str(cs.as_slice(), "terminated") {
                AwaitShown::Text(String::from_str("Program terminated"))
            } else {
                AwaitShown::Stop
            }
        },
        None => AwaitShown::Nothing,
    }
}

/// The lines of a backtrace, one per frame, numbered from 0.
pub open spec fn frame_lines(fs: Seq<StackFrameInfo>) -> Seq<char>
    decreases fs.len(),
{
    if fs.len() <= 1 {
        if fs.len() == 0 {
            seq![]
        } else {
            frame_text(0, fs[0])
        }
    } else {
        frame_lines(fs.drop_last()) + "\n"@ + frame_text((fs.len() - 1) as nat, fs.last())
    }
}

/// What the backtrace command prints without locals.
pub open spec fn frames_text_spec(fs: Seq<StackFrameInfo>) -> Seq<char> {
    if fs.len() == 0 {
        "No stack frames"@
    } else {
        frame_lines(fs)
    }
}

/// The text of the backtrace command without locals.
pub fn frames_text(frames: &[StackFrameInfo]) -> (r: String)
    ensures
        r@ == frames_text_spec(frames@),
{
    if frames.len() == 0 {
        return String::from_str("No stack frames");
    }
    let first = frame_line(0, &frames[0]);
    let mut m = crate::text::chars_of(first.as_str());
    let mut k: usize = 1;
    proof {
        assert(frames@.take(1).drop_last() =~= Seq::<StackFrameInfo>::empty());
    }
    while k < frames.len()
        invariant
            1 <= k <= frames@.len(),
            m@ == frame_lines(frames@.take(k as int)),
        decreases frames@.len() - k,
    {
        proof {
            assert(frames@.take(k + 1).drop_last() =~= frames@.take(k as int));
        }
        crate::text::append_str(&mut m, "\n");
        let line = frame_line(k, &frames[k]);
        crate::text::append_str(&mut m, line.as_str());
        k = k + 1;
    }
    proof {
        assert(frames@.take(frames@.len() as int) =~= frames@);
    }
    crate::text::string_from(m.as_slice())
}

/// What the thread command prints without an id.
pub open spec fn current_thread_spec(stopped: Option<i64>) -> Seq<char> {
    match stopped {
        Some(t) => "Current thread: "@ + crate::number::signed_decimal_of(t as int),
        None => "No thread selected"@,
    }
}

/// The text of the thread command without an id: the stopped thread.
pub fn current_thread_text(stopped: Option<i64>) -> (r: String)
    ensures
        r@ == current_thread_spec(stopped),
{
    match stopped {
        Some(t) => {
            let mut m = crate::text::chars_of("Current thread: ");
            let d = crate::number::signed_decimal_chars(t);
            crate::text::append(&mut m, d.as_slice());
            crate::text::string_from(m.as_slice())
        },
        None => String::from_str("No thread selected"),
    }
}

/// What the output command prints for the collected output.
pub open spec fn output_shown_spec(output: Seq<char>) -> Seq<char> {
    if output.len() == 0 {
        "(no output)\n"@
    } else {
        output
    }
}

/// The text of the output command: the output as it is, or a line saying
/// there is none.
pub fn output_shown(output: &str) -> (r: String)
    ensures
        r@ == output_shown_spec(output@),
{
    let cs = crate::text::chars_of(output);
    if cs.len() == 0 {
        String::from_str("(no output)\n")
    } else {
        crate::text::string_from(cs.as_slice())
    }
}

} // verus!
