//! IPC request and response types, and breakpoint locations.
//!
//! Paths travel as text.

use crate::common::error::IpcError;
use crate::common::Error;
use crate::json::JsonValue;
use vstd::prelude::*;

verus! {

/// A request from the command line to the daemon.
#[derive(Debug)]
pub struct Request {
    /// Request ID, echoed in the response.
    pub id: u64,
    /// The command to run.
    pub command: Command,
}

/// A response from the daemon.
#[derive(Debug)]
pub struct Response {
    /// The ID of the request this answers.
    pub id: u64,
    /// Whether the command succeeded.
    pub success: bool,
    /// The result, on success.
    pub result: Option<JsonValue>,
    /// The error, on failure.
    pub error: Option<IpcError>,
}

impl Response {
    /// A success response carrying `result`.
    pub fn success(id: u64, result: JsonValue) -> (r: Self)
        ensures
            r.id == id,
            r.success,
            r.result == Some(result),
            r.error is None,
    {
        Response { id, success: true, result: Some(result), error: None }
    }

    /// An error response.
    pub fn error(id: u64, error: IpcError) -> (r: Self)
        ensures
            r.id == id,
            !r.success,
            r.result is None,
            r.error == Some(error),
    {
        Response { id, success: false, result: None, error: Some(error) }
    }

    /// A success response carrying an empty object.
    pub fn ok(id: u64) -> (r: Self)
        ensures
            r.id == id,
            r.success,
            r.result matches Some(JsonValue::Object(entries)) && entries@.len() == 0,
            r.error is None,
    {
        Response { id, success: true, result: Some(JsonValue::Object(Vec::new())), error: None }
    }
}

/// Commands the command line sends to the daemon.
#[derive(Debug)]
pub enum Command {
    Start { program: String, args: Vec<String>, adapter: Option<String>, stop_on_entry: bool },
    Attach { pid: u32, adapter: Option<String> },
    Detach,
    Stop,
    Restart,
    Status,
    BreakpointAdd { location: BreakpointLocation, condition: Option<String>, hit_count: Option<u32> },
    BreakpointRemove { id: Option<u32>, all: bool },
    BreakpointList,
    BreakpointEnable { id: u32 },
    BreakpointDisable { id: u32 },
    Continue,
    Next,
    StepIn,
    StepOut,
    Pause,
    StackTrace { thread_id: Option<i64>, limit: usize },
    Locals { frame_id: Option<i64> },
    Evaluate { expression: String, frame_id: Option<i64>, context: EvaluateContext },
    Scopes { frame_id: i64 },
    Variables { reference: i64 },
    Threads,
    ThreadSelect { id: i64 },
    FrameSelect { number: usize },
    FrameUp,
    FrameDown,
    Context { lines: usize },
    Await { timeout_secs: u64 },
    GetOutput { tail: Option<usize>, clear: bool },
    SubscribeOutput,
    Shutdown,
}

/// A command as plain values.
pub enum CommandView {
    Start { program: Seq<char>, args: Seq<Seq<char>>, adapter: Option<Seq<char>>, stop_on_entry: bool },
    Attach { pid: u32, adapter: Option<Seq<char>> },
    Detach,
    Stop,
    Restart,
    Status,
    BreakpointAdd { location: LocationView, condition: Option<Seq<char>>, hit_count: Option<u32> },
    BreakpointRemove { id: Option<u32>, all: bool },
    BreakpointList,
    BreakpointEnable { id: u32 },
    BreakpointDisable { id: u32 },
    Continue,
    Next,
    StepIn,
    StepOut,
    Pause,
    StackTrace { thread_id: Option<i64>, limit: usize },
    Locals { frame_id: Option<i64> },
    Evaluate { expression: Seq<char>, frame_id: Option<i64>, context: EvaluateContext },
    Scopes { frame_id: i64 },
    Variables { reference: i64 },
    Threads,
    ThreadSelect { id: i64 },
    FrameSelect { number: usize },
    FrameUp,
    FrameDown,
    Context { lines: usize },
    Await { timeout_secs: u64 },
    GetOutput { tail: Option<usize>, clear: bool },
    SubscribeOutput,
    Shutdown,
}

/// The view of an optional string.
pub open spec fn opt_view(o: Option<String>) -> Option<Seq<char>> {
    match o {
        Some(s) => Some(s@),
        None => None,
    }
}

impl View for Command {
    type V = CommandView;

    open spec fn view(&self) -> CommandView {
        match self {
            Command::Start { program, args, adapter, stop_on_entry } => CommandView::Start {
                program: program@,
                args: args@.map_values(|a: String| a@),
                adapter: opt_view(*adapter),
                stop_on_entry: *stop_on_entry,
            },
            Command::Attach { pid, adapter } => CommandView::Attach { pid: *pid, adapter: opt_view(*adapter) },
            Command::Detach => CommandView::Detach,
            Command::Stop => CommandView::Stop,
            Command::Restart => CommandView::Restart,
            Command::Status => CommandView::Status,
            Command::BreakpointAdd { location, condition, hit_count } => CommandView::BreakpointAdd {
                location: location@,
                condition: opt_view(*condition),
                hit_count: *hit_count,
            },
            Command::BreakpointRemove { id, all } => CommandView::BreakpointRemove { id: *id, all: *all },
            Command::BreakpointList => CommandView::BreakpointList,
            Command::BreakpointEnable { id } => CommandView::BreakpointEnable { id: *id },
            Command::BreakpointDisable { id } => CommandView::BreakpointDisable { id: *id },
            Command::Continue => CommandView::Continue,
            Command::Next => CommandView::Next,
            Command::StepIn => CommandView::StepIn,
            Command::StepOut => CommandView::StepOut,
            Command::Pause => CommandView::Pause,
            Command::StackTrace { thread_id, limit } => CommandView::StackTrace {
                thread_id: *thread_id,
                limit: *limit,
            },
            Command::Locals { frame_id } => CommandView::Locals { frame_id: *frame_id },
            Command::Evaluate { expression, frame_id, context } => CommandView::Evaluate {
                expression: expression@,
                frame_id: *frame_id,
                context: *context,
            },
            Command::Scopes { frame_id } => CommandView::Scopes { frame_id: *frame_id },
            Command::Variables { reference } => CommandView::Variables { reference: *reference },
            Command::Threads => CommandView::Threads,
            Command::ThreadSelect { id } => CommandView::ThreadSelect { id: *id },
            Command::FrameSelect { number } => CommandView::FrameSelect { number: *number },
            Command::FrameUp => CommandView::FrameUp,
            Command::FrameDown => CommandView::FrameDown,
            Command::Context { lines } => CommandView::Context { lines: *lines },
            Command::Await { timeout_secs } => CommandView::Await { timeout_secs: *timeout_secs },
            Command::GetOutput { tail, clear } => CommandView::GetOutput { tail: *tail, clear: *clear },
            Command::SubscribeOutput => CommandView::SubscribeOutput,
            Command::Shutdown => CommandView::Shutdown,
        }
    }
}

/// Where a breakpoint goes.
#[derive(Debug, Clone)]
pub enum BreakpointLocation {
    /// A file and a line number.
    Line { file: String, line: u32 },
    /// A function name.
    Function { name: String },
}

/// A breakpoint location as plain values.
pub enum LocationView {
    Line(Seq<char>, nat),
    Function(Seq<char>),
}

impl View for BreakpointLocation {
    type V = LocationView;

    open spec fn view(&self) -> LocationView {
        match self {
            BreakpointLocation::Line { file, line } => LocationView::Line(file@, *line as nat),
            BreakpointLocation::Function { name } => LocationView::Function(name@),
        }
    }
}

/// The index of the last `c` in `s`.
pub open spec fn last_index(s: Seq<char>, c: char) -> Option<int>
    decreases s.len(),
{
    if s.len() == 0 {
        None
    } else if s.last() == c {
        Some(s.len() - 1)
    } else {
        last_index(s.drop_last(), c)
    }
}

/// The file and the line digits of a `file:line` location: the text after
/// the last `:` must be a non-empty run of decimal digits.
pub open spec fn line_split(s: Seq<char>) -> Option<(Seq<char>, Seq<char>)> {
    match last_index(s, ':') {
        Some(i) => {
            let digits = s.skip(i + 1);
            if digits.len() > 0 && crate::number::all_digits(digits) {
                Some((s.take(i), digits))
            } else {
                None
            }
        },
        None => None,
    }
}

/// What parsing a location gives: the location, or the message of the
/// invalid-location error.
pub open spec fn parse_location_spec(s: Seq<char>) -> Result<LocationView, Seq<char>> {
    match line_split(s) {
        Some((file, digits)) => match crate::number::parse_unsigned(digits, u32::MAX as nat) {
            Some(n) => Ok(LocationView::Line(file, n)),
            None => Err("invalid line number: "@ + digits),
        },
        None => Ok(LocationView::Function(s)),
    }
}

/// The text of a location (`file:line`, or the function name).
pub open spec fn location_text(loc: LocationView) -> Seq<char> {
    match loc {
        LocationView::Line(file, line) => file + seq![':'] + crate::number::decimal_of(line),
        LocationView::Function(name) => name,
    }
}

pub proof fn lemma_last_index(s: Seq<char>, c: char, i: int)
    requires
        0 <= i < s.len(),
        s[i] == c,
        forall|j: int| i < j < s.len() ==> s[j] != c,
    ensures
        last_index(s, c) == Some(i),
    decreases s.len(),
{
    if i < s.len() - 1 {
        lemma_last_index(s.drop_last(), c, i);
    }
}

pub proof fn lemma_no_index(s: Seq<char>, c: char)
    requires
        forall|j: int| 0 <= j < s.len() ==> s[j] != c,
    ensures
        last_index(s, c) is None,
    decreases s.len(),
{
    if s.len() > 0 {
        lemma_no_index(s.drop_last(), c);
    }
}

impl BreakpointLocation {
    /// Parses `file:line` or a function name. The text after the last `:` is
    /// the line when it is a non-empty run of digits (so Windows paths such
    /// as `C:\x.rs:10` work); otherwise the whole text is a function name.
    pub fn parse(s: &str) -> (r: Result<Self, Error>)
        ensures
            match parse_location_spec(s@) {
                Ok(v) => (r matches Ok(loc) && loc@ == v),
                Err(m) => (r matches Err(Error::InvalidLocation(t)) && t@ == m),
            },
    {
        let cs = crate::text::chars_of(s);
        match crate::text::rfind_char(cs.as_slice(), ':') {
            Some(i) => {
                proof {
                    lemma_last_index(cs@, ':', i as int);
                }
                let digits = crate::text::slice_range(cs.as_slice(), i + 1, cs.len());
                proof {
                    assert(digits@ =~= cs@.skip(i + 1));
                }
                let mut all = digits.len() > 0;
                let mut k: usize = 0;
                while k < digits.len()
                    invariant
                        k <= digits@.len(),
                        all == (digits@.len() > 0 && forall|j: int|
                            0 <= j < k ==> crate::number::is_digit(#[trigger] digits@[j])),
                    decreases digits@.len() - k,
                {
                    let u = digits[k] as u32;
                    if !(48 <= u && u <= 57) {
                        all = false;
                    }
                    k = k + 1;
                }
                if all {
                    match crate::number::parse_u32(digits.as_slice()) {
                        Some(line) => {
                            let file = crate::text::slice_range(cs.as_slice(), 0, i);
                            proof {
                                assert(file@ =~= cs@.take(i as int));
                                assert(crate::number::unsigned_digits(digits@) == digits@);
                            }
                            Ok(BreakpointLocation::Line { file: crate::text::string_from(file.as_slice()), line })
                        },
                        None => {
                            let mut m = crate::text::chars_of("invalid line number: ");
                            crate::text::append(&mut m, digits.as_slice());
                            Err(Error::InvalidLocation(crate::text::string_from(m.as_slice())))
                        },
                    }
                } else {
                    Ok(BreakpointLocation::Function { name: String::from_str(s) })
                }
            },
            None => {
                proof {
                    lemma_no_index(cs@, ':');
                }
                Ok(BreakpointLocation::Function { name: String::from_str(s) })
            },
        }
    }

    /// A copy of the location.
    pub fn copy(&self) -> (r: Self)
        ensures
            r@ == self@,
    {
        match self {
            BreakpointLocation::Line { file, line } => BreakpointLocation::Line { file: file.clone(), line: *line },
            BreakpointLocation::Function { name } => BreakpointLocation::Function { name: name.clone() },
        }
    }

    /// The location's text: `file:line`, or the function name.
    pub fn to_text(&self) -> (r: String)
        ensures
            r@ == location_text(self@),
    {
        match self {
            BreakpointLocation::Line { file, line } => {
                let mut m = crate::text::chars_of(file.as_str());
                m.push(':');
                let d = crate::number::decimal_chars(*line as u64);
                crate::text::append(&mut m, d.as_slice());
                crate::text::string_from(m.as_slice())
            },
            BreakpointLocation::Function { name } => name.clone(),
        }
    }
}

/// Parsing the text of a location gives the location back: always for a
/// `file:line` location, and for a function whose name does not itself end
/// in `:` and digits.
pub proof fn law_location_text_parses_back(loc: LocationView)
    requires
        loc matches LocationView::Line(_, n) ==> n <= u32::MAX,
        loc matches LocationView::Function(name) ==> line_split(name) is None,
    ensures
        match loc {
            LocationView::Line(file, n) => line_split(location_text(loc)) == Some(
                (file, crate::number::decimal_of(n)),
            ) && crate::number::parse_unsigned(crate::number::decimal_of(n), u32::MAX as nat) == Some(
                n,
            ),
            LocationView::Function(name) => line_split(location_text(loc)) is None,
        },
{
    match loc {
        LocationView::Line(file, n) => {
            let d = crate::number::decimal_of(n);
            let t = file + seq![':'] + d;
            crate::number::lemma_decimal_roundtrip(n);
            crate::number::lemma_parse_decimal(n, u32::MAX as nat);
            assert forall|j: int| file.len() < j < t.len() implies t[j] != ':' by {
                assert(t[j] == d[j - file.len() - 1]);
                assert(crate::number::is_digit(d[j - file.len() - 1]));
                crate::number::lemma_digit_ascii(d[j - file.len() - 1]);
            }
            assert(t[file.len() as int] == ':');
            lemma_last_index(t, ':', file.len() as int);
            assert(t.skip(file.len() as int + 1) =~= d);
            assert(t.take(file.len() as int) =~= file);
        },
        LocationView::Function(name) => {},
    }
}

/// How an expression is evaluated.
#[derive(Debug, Clone, Copy, PartialEq, Eq)]
pub enum EvaluateContext {
    /// Read-only evaluation.
    Watch,
    /// REPL evaluation, which may have side effects.
    Repl,
    /// Hover evaluation.
    Hover,
}

impl EvaluateContext {
    /// The default context, `Watch`.
    pub fn default_context() -> (r: Self)
        ensures
            r == EvaluateContext::Watch,
    {
        EvaluateContext::Watch
    }

    /// The context's name in DAP requests.
    pub fn as_str(&self) -> (r: &'static str)
        ensures
            r@ == match self {
                EvaluateContext::Watch => "watch"@,
                EvaluateContext::Repl => "repl"@,
                EvaluateContext::Hover => "hover"@,
            },
    {
        match self {
            EvaluateContext::Watch => "watch",
            EvaluateContext::Repl => "repl",
            EvaluateContext::Hover => "hover",
        }
    }
}

/// Session status.
#[derive(Debug, Clone)]
pub struct StatusResult {
    pub daemon_running: bool,
    pub session_active: bool,
    pub state: Option<String>,
    pub program: Option<String>,
    pub adapter: Option<String>,
    pub stopped_thread: Option<i64>,
    pub stopped_reason: Option<String>,
}

/// A breakpoint as the daemon reports it.
#[derive(Debug, Clone)]
pub struct BreakpointInfo {
    pub id: u32,
    pub verified: bool,
    pub source: Option<String>,
    pub line: Option<u32>,
    pub message: Option<String>,
    pub enabled: bool,
    pub condition: Option<String>,
    pub hit_count: Option<u32>,
}

/// A stack frame as the daemon reports it.
#[derive(Debug, Clone)]
pub struct StackFrameInfo {
    pub id: i64,
    pub name: String,
    pub source: Option<String>,
    pub line: Option<u32>,
    pub column: Option<u32>,
}

/// A thread as the daemon reports it.
#[derive(Debug, Clone)]
pub struct ThreadInfo {
    pub id: i64,
    pub name: String,
    pub state: Option<String>,
}

/// A variable as the daemon reports it.
#[derive(Debug, Clone)]
pub struct VariableInfo {
    pub name: String,
    pub value: String,
    pub value_type: Option<String>,
    pub variables_reference: i64,
}

/// Why and where the program stopped.
#[derive(Debug, Clone)]
pub struct StopResult {
    pub reason: String,
    pub description: Option<String>,
    pub thread_id: Option<i64>,
    pub all_threads_stopped: bool,
    pub hit_breakpoint_ids: Vec<u32>,
    pub source: Option<String>,
    pub line: Option<u32>,
    pub column: Option<u32>,
}

/// The result of an evaluation.
#[derive(Debug, Clone)]
pub struct EvaluateResult {
    pub result: String,
    pub value_type: Option<String>,
    pub variables_reference: i64,
}

/// The current position with source lines and locals.
#[derive(Debug)]
pub struct ContextResult {
    pub thread_id: i64,
    pub source: Option<String>,
    pub line: u32,
    pub column: Option<u32>,
    pub function: Option<String>,
    pub source_lines: Vec<SourceLine>,
    pub locals: Vec<VariableInfo>,
}

/// A numbered source line.
#[derive(Debug, Clone)]
pub struct SourceLine {
    pub number: u32,
    pub content: String,
    pub is_current: bool,
}

/// Memory read from the program.
#[derive(Debug, Clone)]
pub struct MemoryReadResult {
    /// The address read from.
    pub address: String,
    /// How many bytes were read.
    pub bytes_read: usize,
    /// The bytes.
    pub data: Vec<u8>,
}

} // verus!
