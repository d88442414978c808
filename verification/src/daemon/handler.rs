//! How the daemon answers commands: the checks made before a command runs,
//! and the replies built from what the session and the adapter gave.

use crate::common::Error;
use crate::daemon::session::{OutputEvent, SessionCore, SessionState};
use crate::dap::types::{Capabilities, Event, StackFrame, Thread, Variable};
use crate::ipc::protocol::{BreakpointLocation, Command, SourceLine, StackFrameInfo, StatusResult, StopResult, ThreadInfo, VariableInfo};
use crate::ipc::protocol::CommandView;
use crate::json::{JsonValue, JsonView};
use vstd::prelude::*;

verus! {

/// A command that needs a session fails without one.
pub fn require_session(active: bool) -> (r: Result<(), Error>)
    ensures
        active ==> r is Ok,
        !active ==> r == Err::<(), Error>(Error::SessionNotActive),
{
    if active {
        Ok(())
    } else {
        Err(Error::SessionNotActive)
    }
}

/// Starting or attaching fails while a session is active.
pub fn require_no_session(active: bool) -> (r: Result<(), Error>)
    ensures
        !active ==> r is Ok,
        active ==> r == Err::<(), Error>(Error::SessionAlreadyActive),
{
    if active {
        Err(Error::SessionAlreadyActive)
    } else {
        Ok(())
    }
}

/// Whether a command needs a debug session.
#[derive(Debug, Clone, Copy, PartialEq, Eq, Structural)]
pub enum SessionNeed {
    /// It works on the session, so one must be active.
    Required,
    /// It makes a session, so none may be active.
    Absent,
    /// It works with or without one.
    Either,
}

/// What a command needs: starting and attaching need no session; status,
/// output streaming and shutdown work either way; every other command
/// works on the session.
pub open spec fn session_need_spec(c: CommandView) -> SessionNeed {
    match c {
        CommandView::Start { .. } | CommandView::Attach { .. } => SessionNeed::Absent,
        CommandView::Status | CommandView::SubscribeOutput | CommandView::Shutdown => SessionNeed::Either,
        _ => SessionNeed::Required,
    }
}

/// What a command needs of the session.
pub fn session_need(command: &Command) -> (r: SessionNeed)
    ensures
        r == session_need_spec(command@),
{
    match command {
        Command::Start { .. } | Command::Attach { .. } => SessionNeed::Absent,
        Command::Status | Command::SubscribeOutput | Command::Shutdown => SessionNeed::Either,
        _ => SessionNeed::Required,
    }
}

/// The check made before a command runs: a command that works on the
/// session fails without one, and starting or attaching fails while one is
/// active.
pub fn check_session(command: &Command, active: bool) -> (r: Result<(), Error>)
    ensures
        match session_need_spec(command@) {
            SessionNeed::Required => if active {
                r is Ok
            } else {
                r == Err::<(), Error>(Error::SessionNotActive)
            },
            SessionNeed::Absent => if active {
                r == Err::<(), Error>(Error::SessionAlreadyActive)
            } else {
                r is Ok
            },
            SessionNeed::Either => r is Ok,
        },
{
    match session_need(command) {
        SessionNeed::Required => require_session(active),
        SessionNeed::Absent => require_no_session(active),
        SessionNeed::Either => Ok(()),
    }
}

/// An internal error with a fixed message.
fn internal(m: &str) -> (e: Error)
    ensures
        e matches Error::Internal(t) && t@ == m@,
{
    Error::Internal(String::from_str(m))
}

/// Whether the adapter can set the breakpoint asked for: function
/// breakpoints, conditions and hit counts each need their capability.
pub fn check_breakpoint_support(
    location: &BreakpointLocation,
    has_condition: bool,
    has_hit_count: bool,
    caps: &Capabilities,
) -> (r: Result<(), Error>)
    ensures
        (location is Function && !caps.supports_function_breakpoints) ==> (r matches Err(Error::Internal(t)) && t@
            == "Debug adapter does not support function breakpoints. Use file:line format instead."@),
        !(location is Function && !caps.supports_function_breakpoints) && has_condition
            && !caps.supports_conditional_breakpoints ==> (r matches Err(Error::Internal(t)) && t@
            == "Debug adapter does not support conditional breakpoints."@),
        !(location is Function && !caps.supports_function_breakpoints) && !(has_condition
            && !caps.supports_conditional_breakpoints) && has_hit_count && !caps.supports_hit_conditional_breakpoints
            ==> (r matches Err(Error::Internal(t)) && t@ == "Debug adapter does not support hit count conditions."@),
        !(location is Function && !caps.supports_function_breakpoints) && !(has_condition
            && !caps.supports_conditional_breakpoints) && !(has_hit_count && !caps.supports_hit_conditional_breakpoints)
            ==> r is Ok,
{
    let function = match location {
        BreakpointLocation::Function { .. } => true,
        BreakpointLocation::Line { .. } => false,
    };
    if function && !caps.supports_function_breakpoints {
        return Err(internal("Debug adapter does not support function breakpoints. Use file:line format instead."));
    }
    if has_condition && !caps.supports_conditional_breakpoints {
        return Err(internal("Debug adapter does not support conditional breakpoints."));
    }
    if has_hit_count && !caps.supports_hit_conditional_breakpoints {
        return Err(internal("Debug adapter does not support hit count conditions."));
    }
    Ok(())
}

/// Which breakpoints a remove command removes.
#[derive(Debug, Clone, Copy, PartialEq, Eq, Structural)]
pub enum Removal {
    /// All of them.
    All,
    /// The one with this id.
    One(u32),
}

/// What a remove command asks for: all, or one id; neither is an error.
pub fn removal(id: Option<u32>, all: bool) -> (r: Result<Removal, Error>)
    ensures
        all ==> r == Ok::<Removal, Error>(Removal::All),
        !all && id is Some ==> r == Ok::<Removal, Error>(Removal::One(id->0)),
        !all && id is None ==> (r matches Err(Error::InvalidLocation(t)) && t@
            == "Must specify breakpoint ID or --all"@),
{
    if all {
        Ok(Removal::All)
    } else {
        match id {
            Some(i) => Ok(Removal::One(i)),
            None => Err(Error::InvalidLocation(String::from_str("Must specify breakpoint ID or --all"))),
        }
    }
}

/// Whether the adapter can restart the session.
pub fn check_restart(supported: bool) -> (r: Result<(), Error>)
    ensures
        supported ==> r is Ok,
        !supported ==> (r matches Err(Error::Internal(t)) && t@
            == "Debug adapter does not support restart. Use 'debugger stop' then 'debugger start' manually."@),
{
    if supported {
        Ok(())
    } else {
        Err(internal("Debug adapter does not support restart. Use 'debugger stop' then 'debugger start' manually."))
    }
}

/// The view of an optional string.
pub open spec fn opt_text(o: Option<String>) -> Option<Seq<char>> {
    match o {
        Some(s) => Some(s@),
        None => None,
    }
}

/// A copy of an optional string.
fn copy_text(o: &Option<String>) -> (r: Option<String>)
    ensures
        opt_text(r) == opt_text(*o),
{
    match o {
        Some(s) => Some(s.clone()),
        None => None,
    }
}

/// The status while a session is active.
pub fn status_active(core: &SessionCore, program: &str, adapter: &str) -> (r: StatusResult)
    ensures
        r.daemon_running,
        r.session_active,
        opt_text(r.state) == Some(crate::daemon::session::state_name(core.state)),
        opt_text(r.program) == Some(program@),
        opt_text(r.adapter) == Some(adapter@),
        r.stopped_thread == core.stopped_thread,
        opt_text(r.stopped_reason) == opt_text(core.stopped_reason),
{
    StatusResult {
        daemon_running: true,
        session_active: true,
        state: Some(String::from_str(core.state.as_str())),
        program: Some(String::from_str(program)),
        adapter: Some(String::from_str(adapter)),
        stopped_thread: core.stopped_thread,
        stopped_reason: copy_text(&core.stopped_reason),
    }
}

/// The status without a session.
pub fn status_inactive() -> (r: StatusResult)
    ensures
        r.daemon_running,
        !r.session_active,
        r.state is None,
        r.program is None,
        r.adapter is None,
        r.stopped_thread is None,
        r.stopped_reason is None,
{
    StatusResult {
        daemon_running: true,
        session_active: false,
        state: None,
        program: None,
        adapter: None,
        stopped_thread: None,
        stopped_reason: None,
    }
}

/// A frame as the daemon reports it: its source is the source's path.
pub fn frame_info(f: &StackFrame) -> (r: StackFrameInfo)
    ensures
        r.id == f.id,
        r.name@ == f.name@,
        opt_text(r.source) == match f.source {
            Some(s) => opt_text(s.path),
            None => None,
        },
        r.line == Some(f.line),
        r.column == Some(f.column),
{
    StackFrameInfo {
        id: f.id,
        name: f.name.clone(),
        source: match &f.source {
            Some(s) => copy_text(&s.path),
            None => None,
        },
        line: Some(f.line),
        column: Some(f.column),
    }
}

/// A variable as the daemon reports it.
pub fn variable_info(v: &Variable) -> (r: VariableInfo)
    ensures
        r.name@ == v.name@,
        r.value@ == v.value@,
        opt_text(r.value_type) == opt_text(v.value_type),
        r.variables_reference == v.variables_reference,
{
    VariableInfo {
        name: v.name.clone(),
        value: v.value.clone(),
        value_type: copy_text(&v.value_type),
        variables_reference: v.variables_reference,
    }
}

/// The variables as the daemon reports them, in order.
pub fn variable_infos(vs: &[Variable]) -> (r: Vec<VariableInfo>)
    ensures
        r@.len() == vs@.len(),
        forall|i: int| 0 <= i < vs@.len() ==> (#[trigger] r@[i]).name@ == vs@[i].name@ && r@[i].value@ == vs@[i].value@
            && opt_text(r@[i].value_type) == opt_text(vs@[i].value_type) && r@[i].variables_reference
            == vs@[i].variables_reference,
{
    let mut out: Vec<VariableInfo> = Vec::new();
    let mut k: usize = 0;
    while k < vs.len()
        invariant
            k <= vs@.len(),
            out@.len() == k,
            forall|i: int| 0 <= i < k ==> (#[trigger] out@[i]).name@ == vs@[i].name@ && out@[i].value@ == vs@[i].value@
                && opt_text(out@[i].value_type) == opt_text(vs@[i].value_type) && out@[i].variables_reference
                == vs@[i].variables_reference,
        decreases vs@.len() - k,
    {
        out.push(variable_info(&vs[k]));
        k = k + 1;
    }
    out
}

/// A thread as the daemon reports it; DAP gives no state.
pub fn thread_info(t: &Thread) -> (r: ThreadInfo)
    ensures
        r.id == t.id,
        r.name@ == t.name@,
        r.state is None,
{
    ThreadInfo { id: t.id, name: t.name.clone(), state: None }
}

/// A JSON string.
fn jtext(s: &str) -> (r: JsonValue)
    ensures
        r matches JsonValue::Str(t) && t@ == s@,
{
    crate::json::jstr(s)
}

/// A count as a JSON number.
pub fn json_count(n: usize) -> (r: JsonValue)
    ensures
        n <= i64::MAX ==> r == JsonValue::Number(n as i64),
        n > i64::MAX ==> (r matches JsonValue::OtherNumber(t) && t@ == crate::number::decimal_of(n as nat)),
{
    if (n as u64) <= 0x7fff_ffff_ffff_ffffu64 {
        JsonValue::Number(n as i64)
    } else {
        let d = crate::number::decimal_chars(n as u64);
        JsonValue::OtherNumber(crate::text::string_from(d.as_slice()))
    }
}

/// The reply to `await` when nothing needs waiting for: the stop already
/// known, or the exit; `None` while the program runs.
pub fn await_immediate(core: &SessionCore) -> (r: Option<JsonValue>)
    ensures
        core.state == SessionState::Stopped ==> (r matches Some(JsonValue::Object(e)) && e@.len() == 3 && e@[0].0@
            == "reason"@ && (e@[0].1 matches JsonValue::Str(t) && t@ == match core.stopped_reason {
            Some(s) => s@,
            None => "unknown"@,
        }) && e@[1].0@ == "thread_id"@ && e@[1].1 == JsonValue::Number(
            match core.stopped_thread {
                Some(t) => t,
                None => 0,
            },
        ) && e@[2].0@ == "already_stopped"@ && e@[2].1 == JsonValue::Bool(true)),
        core.state == SessionState::Exited ==> (r matches Some(JsonValue::Object(e)) && e@.len() == 2 && e@[0].0@
            == "reason"@ && (e@[0].1 matches JsonValue::Str(t) && t@ == "exited"@) && e@[1].0@ == "exit_code"@
            && e@[1].1 == JsonValue::Number(
            match core.exit_code {
                Some(c) => c as i64,
                None => 0,
            },
        )),
        core.state != SessionState::Stopped && core.state != SessionState::Exited ==> r is None,
{
    match core.state {
        SessionState::Stopped => {
            let reason = match &core.stopped_reason {
                Some(s) => JsonValue::Str(s.clone()),
                None => jtext("unknown"),
            };
            let thread = match core.stopped_thread {
                Some(t) => t,
                None => 0,
            };
            let mut e: Vec<(String, JsonValue)> = Vec::new();
            e.push(crate::json::entry("reason", reason));
            e.push(crate::json::entry("thread_id", JsonValue::Number(thread)));
            e.push(crate::json::entry("already_stopped", JsonValue::Bool(true)));
            Some(JsonValue::Object(e))
        },
        SessionState::Exited => Some(exited_json(
            match core.exit_code {
                Some(c) => c,
                None => 0,
            },
        )),
        _ => None,
    }
}

/// `{"reason": "exited", "exit_code": code}`.
fn exited_json(code: i32) -> (r: JsonValue)
    ensures
        r matches JsonValue::Object(e) && e@.len() == 2 && e@[0].0@ == "reason"@ && (e@[0].1 matches JsonValue::Str(t)
            && t@ == "exited"@) && e@[1].0@ == "exit_code"@ && e@[1].1 == JsonValue::Number(code as i64),
{
    let mut e: Vec<(String, JsonValue)> = Vec::new();
    e.push(crate::json::entry("reason", jtext("exited")));
    e.push(crate::json::entry("exit_code", JsonValue::Number(code as i64)));
    JsonValue::Object(e)
}

/// `{"reason": reason}`.
fn reason_json(reason: &str) -> (r: JsonValue)
    ensures
        r matches JsonValue::Object(e) && e@.len() == 1 && e@[0].0@ == "reason"@ && (e@[0].1 matches JsonValue::Str(t)
            && t@ == reason@),
{
    let mut e: Vec<(String, JsonValue)> = Vec::new();
    e.push(crate::json::entry("reason", jtext(reason)));
    JsonValue::Object(e)
}

/// The reply to `await`.
#[derive(Debug)]
pub enum AwaitReply {
    /// The program stopped.
    Stop(StopResult),
    /// Anything else, as JSON.
    Other(JsonValue),
}

/// The reply to `await` once the awaited event came: a stop's data (with
/// thread 0 when the adapter named none, and no location yet), an exit's
/// code, a termination, or an unknown reason.
pub fn await_reply(event: Event) -> (r: AwaitReply)
    ensures
        match event {
            Event::Stopped(b) => (r matches AwaitReply::Stop(s) && s.reason@ == b.reason@ && opt_text(s.description)
                == opt_text(b.description) && s.thread_id == Some(match b.thread_id {
                Some(t) => t,
                None => 0i64,
            }) && s.all_threads_stopped == b.all_threads_stopped && s.hit_breakpoint_ids@ == b.hit_breakpoint_ids@
                && s.source is None && s.line is None && s.column is None),
            Event::Exited(b) => (r matches AwaitReply::Other(JsonValue::Object(e)) && e@.len() == 2 && e@[0].0@
                == "reason"@ && (e@[0].1 matches JsonValue::Str(t) && t@ == "exited"@) && e@[1].0@ == "exit_code"@
                && e@[1].1 == JsonValue::Number(b.exit_code as i64)),
            Event::Terminated(_) => (r matches AwaitReply::Other(JsonValue::Object(e)) && e@.len() == 1 && e@[0].0@
                == "reason"@ && (e@[0].1 matches JsonValue::Str(t) && t@ == "terminated"@)),
            _ => (r matches AwaitReply::Other(JsonValue::Object(e)) && e@.len() == 1 && e@[0].0@ == "reason"@ && (
            e@[0].1 matches JsonValue::Str(t) && t@ == "unknown"@)),
        },
{
    match event {
        Event::Stopped(b) => AwaitReply::Stop(
            StopResult {
                reason: b.reason,
                description: b.description,
                thread_id: Some(match b.thread_id {
                    Some(t) => t,
                    None => 0,
                }),
                all_threads_stopped: b.all_threads_stopped,
                hit_breakpoint_ids: b.hit_breakpoint_ids,
                source: None,
                line: None,
                column: None,
            },
        ),
        Event::Exited(b) => AwaitReply::Other(exited_json(b.exit_code)),
        Event::Terminated(_) => AwaitReply::Other(reason_json("terminated")),
        _ => AwaitReply::Other(reason_json("unknown")),
    }
}

/// The output pieces' text, joined.
pub open spec fn joined_output(es: Seq<OutputEvent>) -> Seq<char>
    decreases es.len(),
{
    if es.len() == 0 {
        seq![]
    } else {
        joined_output(es.drop_last()) + es.last().output@
    }
}

/// The reply to a get-output command: the pieces' text joined, and their
/// number.
pub fn output_reply(events: &[OutputEvent]) -> (r: JsonValue)
    ensures
        r matches JsonValue::Object(e) && e@.len() == 2 && e@[0].0@ == "output"@ && (e@[0].1 matches JsonValue::Str(t)
            && t@ == joined_output(events@)) && e@[1].0@ == "count"@ && (events@.len() <= i64::MAX ==> e@[1].1
            == JsonValue::Number(events@.len() as i64)),
{
    let mut text: Vec<char> = Vec::new();
    let mut k: usize = 0;
    while k < events.len()
        invariant
            k <= events@.len(),
            text@ == joined_output(events@.take(k as int)),
        decreases events@.len() - k,
    {
        proof {
            assert(events@.take(k + 1).drop_last() =~= events@.take(k as int));
        }
        crate::text::append_str(&mut text, events[k].output.as_str());
        k = k + 1;
    }
    proof {
        assert(events@.take(events@.len() as int) =~= events@);
    }
    let mut e: Vec<(String, JsonValue)> = Vec::new();
    e.push(crate::json::entry("output", JsonValue::Str(crate::text::string_from(text.as_slice()))));
    e.push(crate::json::entry("count", json_count(events.len())));
    JsonValue::Object(e)
}

/// The lines around the current one that the context command shows: from
/// `context` lines before to `context` lines after, within the file,
/// numbered from 1, the current one marked.
pub open spec fn source_window_spec(lines: Seq<Seq<char>>, current_line: u32, context: nat) -> Seq<(u32, Seq<char>, bool)> {
    let idx: int = if current_line >= 1 { current_line - 1 } else { 0 };
    let start: int = if idx >= context { idx - context } else { 0 };
    let end: int = if idx + context + 1 <= lines.len() { idx + context + 1 } else { lines.len() as int };
    Seq::new(
        (end - start) as nat,
        |i: int| (((start + i + 1) as u32), lines[start + i], ((start + i + 1) as u32) == current_line),
    )
}

/// The context window, numbered from 1: from `lo = max(1, current -
/// context)` to `hi = min(n, current + context)` for a file of `n` lines,
/// line `lo + i` being the file's line of that number and marked when it is
/// the current one. It holds when the window starts at most one line past
/// the end of the file (else taking those lines would panic) and the numbers
/// fit a `u32`.
pub proof fn law_source_window(lines: Seq<Seq<char>>, current_line: u32, context: nat)
    requires
        current_line >= 1,
        current_line - 1 - context <= lines.len(),
        (if lines.len() <= current_line + context { lines.len() as int } else { current_line + context }) <= u32::MAX,
    ensures
        ({
            let n = lines.len() as int;
            let lo: int = if current_line - context >= 1 { current_line - context } else { 1 };
            let hi: int = if n <= current_line + context { n } else { current_line + context };
            let w = source_window_spec(lines, current_line, context);
            &&& w.len() == if lo > hi { 0 } else { hi - lo + 1 }
            &&& forall|i: int|
                0 <= i < w.len() ==> #[trigger] w[i].0 == lo + i && w[i].1 == lines[lo + i - 1] && w[i].2 == (lo + i
                    == current_line)
        }),
{
}

/// The lines around the current one. The window must fit the file (the
/// current line at most `context` lines past its end) and its end must be
/// a `usize`.
pub fn source_window(content: &str, current_line: u32, context: usize) -> (r: Vec<SourceLine>)
    requires
        ({
            let n = crate::text::lines_of(content@).len();
            let idx: int = if current_line >= 1 { current_line - 1 } else { 0 };
            let start: int = if idx >= context { idx - context } else { 0 };
            &&& idx + context + 1 <= usize::MAX
            &&& start <= n
        }),
    ensures
        r@.map_values(|l: SourceLine| (l.number, l.content@, l.is_current)) == source_window_spec(
            crate::text::lines_of(content@),
            current_line,
            context as nat,
        ),
{
    let cs = crate::text::chars_of(content);
    let lines = crate::text::lines(cs.as_slice());
    let ghost ls = crate::text::lines_of(content@);
    let idx: usize = if current_line >= 1 { (current_line - 1) as usize } else { 0 };
    let start: usize = if idx >= context { idx - context } else { 0 };
    let end: usize = if idx + context + 1 <= lines.len() { idx + context + 1 } else { lines.len() };
    let ghost want = source_window_spec(ls, current_line, context as nat);
    let mut out: Vec<SourceLine> = Vec::new();
    let mut k: usize = start;
    while k < end
        invariant
            start <= k <= end,
            end <= lines@.len(),
            crate::text::views(lines@) == ls,
            want == source_window_spec(ls, current_line, context as nat),
            start == (if (if current_line >= 1 { current_line - 1 } else { 0int }) >= context {
                (if current_line >= 1 { current_line - 1 } else { 0int }) - context
            } else {
                0int
            }),
            end == (if (if current_line >= 1 { current_line - 1 } else { 0int }) + context + 1 <= ls.len() {
                (if current_line >= 1 { current_line - 1 } else { 0int }) + context + 1
            } else {
                ls.len() as int
            }),
            out@.map_values(|l: SourceLine| (l.number, l.content@, l.is_current)) == want.take(k - start),
        decreases end - k,
    {
        let number = (k + 1) as u32;
        assert(ls[k as int] == lines@[k as int]@);
        let line = SourceLine {
            number,
            content: crate::text::string_from(lines[k].as_slice()),
            is_current: number == current_line,
        };
        proof {
            assert(want.len() == end - start);
            assert(want[k - start] == (number, line.content@, line.is_current));
            assert(out@.push(line).map_values(|l: SourceLine| (l.number, l.content@, l.is_current)) =~= out@.map_values(
                |l: SourceLine| (l.number, l.content@, l.is_current),
            ).push((number, line.content@, line.is_current)));
            assert(want.take(k + 1 - start) =~= want.take(k - start).push(want[k - start]));
            assert(out@.push(line).map_values(|l: SourceLine| (l.number, l.content@, l.is_current)) =~= want.take(
                k + 1 - start,
            ));
        }
        out.push(line);
        k = k + 1;
    }
    proof {
        assert(want.take(end - start) =~= want);
    }
    out
}

/// The plain form of a JSON string.
pub open spec fn jtext_view(s: Seq<char>) -> crate::json::JsonView {
    crate::json::JsonView::Str(s)
}

/// An object of one member.
pub open spec fn one_member(k: Seq<char>, v: crate::json::JsonView) -> crate::json::JsonView {
    crate::json::JsonView::Object(seq![(k, v)])
}

/// An object of two members, in order.
pub open spec fn two_members(
    k1: Seq<char>,
    v1: crate::json::JsonView,
    k2: Seq<char>,
    v2: crate::json::JsonView,
) -> crate::json::JsonView {
    crate::json::JsonView::Object(seq![(k1, v1), (k2, v2)])
}

/// The reply to a command whose answer does not depend on what the
/// session gave: what starting, attaching, detaching, stopping, restarting,
/// resuming, stepping, pausing, enabling or disabling a breakpoint,
/// choosing a thread and shutting down answer; `None` for the others.
pub open spec fn done_reply_spec(c: crate::ipc::protocol::CommandView) -> Option<crate::json::JsonView> {
    match c {
        CommandView::Start { program, .. } => Some(two_members("status"@, JsonView::Str("started"@), "program"@, JsonView::Str(program))),
        CommandView::Attach { pid, .. } => Some(two_members("status"@, JsonView::Str("attached"@), "pid"@, JsonView::Number(pid as int))),
        CommandView::Detach => Some(one_member("status"@, JsonView::Str("detached"@))),
        CommandView::Stop => Some(one_member("status"@, JsonView::Str("stopped"@))),
        CommandView::Restart => Some(one_member("status"@, JsonView::Str("restarted"@))),
        CommandView::Continue => Some(one_member("status"@, JsonView::Str("running"@))),
        CommandView::Next | CommandView::StepIn | CommandView::StepOut => Some(one_member("status"@, JsonView::Str("stepping"@))),
        CommandView::Pause => Some(one_member("status"@, JsonView::Str("pausing"@))),
        CommandView::BreakpointEnable { id } => Some(one_member("enabled"@, JsonView::Number(id as int))),
        CommandView::BreakpointDisable { id } => Some(one_member("disabled"@, JsonView::Number(id as int))),
        CommandView::ThreadSelect { id } => Some(one_member("selected"@, JsonView::Number(id as int))),
        CommandView::Shutdown => Some(one_member("shutdown"@, JsonView::Bool(true))),
        _ => None,
    }
}

/// `{key: value}`.
fn single(key: &str, value: JsonValue) -> (r: JsonValue)
    ensures
        crate::json::json_view(r) == one_member(key@, crate::json::json_view(value)),
{
    let mut e: Vec<(String, JsonValue)> = Vec::new();
    crate::json::put(&mut e, key, value);
    let r = crate::json::object(e);
    proof {
        assert(crate::json::entries_view(e@) =~= seq![(key@, crate::json::json_view(value))]);
    }
    r
}

/// `{"status": word}`.
fn status_word(word: &str) -> (r: JsonValue)
    ensures
        crate::json::json_view(r) == one_member("status"@, crate::json::JsonView::Str(word@)),
{
    single("status", crate::json::jstr(word))
}

/// `{"status": word, key: value}`.
fn status_with(word: &str, key: &str, value: JsonValue) -> (r: JsonValue)
    ensures
        crate::json::json_view(r) == two_members(
            "status"@,
            crate::json::JsonView::Str(word@),
            key@,
            crate::json::json_view(value),
        ),
{
    let mut e: Vec<(String, JsonValue)> = Vec::new();
    crate::json::put(&mut e, "status", crate::json::jstr(word));
    crate::json::put(&mut e, key, value);
    let r = crate::json::object(e);
    proof {
        assert(crate::json::entries_view(e@) =~= seq![
            ("status"@, crate::json::JsonView::Str(word@)),
            (key@, crate::json::json_view(value)),
        ]);
    }
    r
}

/// The reply to a command whose answer does not depend on what the session
/// gave, once the command has succeeded.
pub fn done_reply(command: &Command) -> (r: Option<JsonValue>)
    ensures
        match done_reply_spec(command@) {
            Some(v) => (r matches Some(x) && crate::json::json_view(x) == v),
            None => r is None,
        },
{
    match command {
        Command::Start { program, .. } => Some(status_with("started", "program", JsonValue::Str(program.clone()))),
        Command::Attach { pid, .. } => Some(status_with("attached", "pid", JsonValue::Number(*pid as i64))),
        Command::Detach => Some(status_word("detached")),
        Command::Stop => Some(status_word("stopped")),
        Command::Restart => Some(status_word("restarted")),
        Command::Continue => Some(status_word("running")),
        Command::Next | Command::StepIn | Command::StepOut => Some(status_word("stepping")),
        Command::Pause => Some(status_word("pausing")),
        Command::BreakpointEnable { id } => Some(single("enabled", JsonValue::Number(*id as i64))),
        Command::BreakpointDisable { id } => Some(single("disabled", JsonValue::Number(*id as i64))),
        Command::ThreadSelect { id } => Some(single("selected", JsonValue::Number(*id))),
        Command::Shutdown => Some(single("shutdown", JsonValue::Bool(true))),
        _ => None,
    }
}

/// The reply to removing breakpoints: `{"removed": "all"}` or the id.
pub fn removal_reply(r: Removal) -> (v: JsonValue)
    ensures
        crate::json::json_view(v) == one_member(
            "removed"@,
            match r {
                Removal::All => crate::json::JsonView::Str("all"@),
                Removal::One(id) => crate::json::JsonView::Number(id as int),
            },
        ),
{
    match r {
        Removal::All => single("removed", crate::json::jstr("all")),
        Removal::One(id) => single("removed", JsonValue::Number(id as i64)),
    }
}

/// A reply listing items under a key, such as the frames or the threads.
pub fn list_reply(key: &str, items: Vec<JsonValue>) -> (v: JsonValue)
    ensures
        crate::json::json_view(v) == one_member(key@, crate::json::JsonView::Array(crate::json::items_view(items@))),
{
    single(key, crate::json::array(items))
}

/// The reply to choosing a frame: its number and the frame.
pub fn frame_reply(selected: usize, frame: JsonValue) -> (v: JsonValue)
    ensures
        v matches JsonValue::Object(e) && e@.len() == 2 && e@[0].0@ == "selected"@ && (selected <= i64::MAX
            ==> e@[0].1 == JsonValue::Number(selected as i64)) && (selected > i64::MAX ==> (e@[0].1 matches JsonValue::OtherNumber(t) && t@ == crate::number::decimal_of(selected as nat))) && e@[1].0@ == "frame"@ && e@[1].1 == frame,
{
    let mut e: Vec<(String, JsonValue)> = Vec::new();
    crate::json::put(&mut e, "selected", json_count(selected));
    crate::json::put(&mut e, "frame", frame);
    JsonValue::Object(e)
}

} // verus!
