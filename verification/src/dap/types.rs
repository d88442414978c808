//! DAP message types, and the reading of event bodies from JSON.
//!
//! A body is read as the protocol's JSON names its fields: a required field
//! must be present with the right kind, an optional one may be missing or
//! `null`, a field with a default may be missing; other members are
//! ignored. A body that is not an object does not read.

use crate::json::JsonValue;
use vstd::prelude::*;

verus! {

/// A DAP message of any kind.
#[derive(Debug)]
pub enum ProtocolMessage {
    Request(RequestMessage),
    Response(ResponseMessage),
    Event(EventMessage),
}

/// A DAP request.
#[derive(Debug)]
pub struct RequestMessage {
    pub seq: i64,
    pub message_type: String,
    pub command: String,
    pub arguments: Option<JsonValue>,
}

/// A DAP response.
#[derive(Debug)]
pub struct ResponseMessage {
    pub seq: i64,
    pub message_type: String,
    pub request_seq: i64,
    pub success: bool,
    pub command: String,
    pub message: Option<String>,
    pub body: Option<JsonValue>,
}

/// A DAP event.
#[derive(Debug)]
pub struct EventMessage {
    pub seq: i64,
    pub message_type: String,
    pub event: String,
    pub body: Option<JsonValue>,
}

/// Arguments of the initialize request.
#[derive(Debug, Clone)]
pub struct InitializeArguments {
    pub client_id: Option<String>,
    pub client_name: Option<String>,
    pub adapter_id: String,
    pub locale: Option<String>,
    pub lines_start_at1: bool,
    pub columns_start_at1: bool,
    pub path_format: Option<String>,
    pub supports_variable_type: bool,
    pub supports_variable_paging: bool,
    pub supports_run_in_terminal_request: bool,
    pub supports_memory_references: bool,
    pub supports_progress_reporting: bool,
}

/// The view of an optional string.
pub open spec fn opt_text(o: Option<String>) -> Option<Seq<char>> {
    match o {
        Some(s) => Some(s@),
        None => None,
    }
}

impl Default for InitializeArguments {
    fn default() -> (r: Self)
        ensures
            opt_text(r.client_id) == Some("debugger-cli"@),
            opt_text(r.client_name) == Some("LLM Debugger CLI"@),
            r.adapter_id@ == "lldb-dap"@,
            r.locale is None,
            r.lines_start_at1,
            r.columns_start_at1,
            opt_text(r.path_format) == Some("path"@),
            r.supports_variable_type,
            r.supports_variable_paging,
            !r.supports_run_in_terminal_request,
            r.supports_memory_references,
            !r.supports_progress_reporting,
    {
        InitializeArguments {
            client_id: Some(String::from_str("debugger-cli")),
            client_name: Some(String::from_str("LLM Debugger CLI")),
            adapter_id: String::from_str("lldb-dap"),
            locale: None,
            lines_start_at1: true,
            columns_start_at1: true,
            path_format: Some(String::from_str("path")),
            supports_variable_type: true,
            supports_variable_paging: true,
            supports_run_in_terminal_request: false,
            supports_memory_references: true,
            supports_progress_reporting: false,
        }
    }
}

/// The value of fields that the protocol's JSON may leave out, when it
/// does: `true`.
pub fn default_true() -> (r: bool)
    ensures
        r,
{
    true
}

/// Arguments of the launch request, for several adapters at once.
#[derive(Debug, Clone)]
pub struct LaunchArguments {
    pub program: String,
    pub args: Vec<String>,
    pub cwd: Option<String>,
    pub env: Option<Vec<(String, String)>>,
    pub stop_on_entry: bool,
    pub init_commands: Option<Vec<String>>,
    pub pre_run_commands: Option<Vec<String>>,
    pub request: Option<String>,
    pub console: Option<String>,
    pub python: Option<String>,
    pub module: Option<String>,
    pub just_my_code: Option<bool>,
    pub redirect_output: Option<bool>,
}

/// Arguments of the attach request.
#[derive(Debug, Clone)]
pub struct AttachArguments {
    pub pid: u32,
    pub wait_for: Option<bool>,
}

/// Arguments of the setBreakpoints request.
#[derive(Debug, Clone)]
pub struct SetBreakpointsArguments {
    pub source: Source,
    pub breakpoints: Vec<SourceBreakpoint>,
}

/// Arguments of the setFunctionBreakpoints request.
#[derive(Debug, Clone)]
pub struct SetFunctionBreakpointsArguments {
    pub breakpoints: Vec<FunctionBreakpoint>,
}

/// Arguments of the continue request.
#[derive(Debug, Clone)]
pub struct ContinueArguments {
    pub thread_id: i64,
    pub single_thread: bool,
}

/// Arguments of the next, stepIn and stepOut requests.
#[derive(Debug, Clone)]
pub struct StepArguments {
    pub thread_id: i64,
    pub granularity: Option<String>,
}

/// Arguments of the pause request.
#[derive(Debug, Clone)]
pub struct PauseArguments {
    pub thread_id: i64,
}

/// Arguments of the stackTrace request.
#[derive(Debug, Clone)]
pub struct StackTraceArguments {
    pub thread_id: i64,
    pub start_frame: Option<i64>,
    pub levels: Option<i64>,
}

/// Arguments of the scopes request.
#[derive(Debug, Clone)]
pub struct ScopesArguments {
    pub frame_id: i64,
}

/// Arguments of the variables request.
#[derive(Debug, Clone)]
pub struct VariablesArguments {
    pub variables_reference: i64,
    pub start: Option<i64>,
    pub count: Option<i64>,
}

/// Arguments of the evaluate request.
#[derive(Debug, Clone)]
pub struct EvaluateArguments {
    pub expression: String,
    pub frame_id: Option<i64>,
    pub context: Option<String>,
}

/// Arguments of the disconnect request.
#[derive(Debug, Clone)]
pub struct DisconnectArguments {
    pub restart: bool,
    pub terminate_debuggee: Option<bool>,
}

/// What an adapter can do.
#[derive(Debug, Clone, Copy)]
pub struct Capabilities {
    pub supports_configuration_done_request: bool,
    pub supports_function_breakpoints: bool,
    pub supports_conditional_breakpoints: bool,
    pub supports_hit_conditional_breakpoints: bool,
    pub supports_evaluate_for_hovers: bool,
    pub supports_step_back: bool,
    pub supports_set_variable: bool,
    pub supports_restart_frame: bool,
    pub supports_restart_request: bool,
    pub supports_goto_targets_request: bool,
    pub supports_step_in_targets_request: bool,
    pub supports_completions_request: bool,
    pub supports_modules_request: bool,
    pub supports_data_breakpoints: bool,
    pub supports_read_memory_request: bool,
    pub supports_disassemble_request: bool,
    pub supports_terminate_request: bool,
}

/// The body of a setBreakpoints response.
#[derive(Debug, Clone)]
pub struct SetBreakpointsResponseBody {
    pub breakpoints: Vec<Breakpoint>,
}

/// The body of a stackTrace response.
#[derive(Debug)]
pub struct StackTraceResponseBody {
    pub stack_frames: Vec<StackFrame>,
    pub total_frames: Option<i64>,
}

/// The body of a threads response.
#[derive(Debug, Clone)]
pub struct ThreadsResponseBody {
    pub threads: Vec<Thread>,
}

/// The body of a scopes response.
#[derive(Debug, Clone)]
pub struct ScopesResponseBody {
    pub scopes: Vec<Scope>,
}

/// The body of a variables response.
#[derive(Debug, Clone)]
pub struct VariablesResponseBody {
    pub variables: Vec<Variable>,
}

/// The body of an evaluate response.
#[derive(Debug, Clone)]
pub struct EvaluateResponseBody {
    pub result: String,
    pub value_type: Option<String>,
    pub variables_reference: i64,
}

/// The body of a continue response.
#[derive(Debug, Clone)]
pub struct ContinueResponseBody {
    pub all_threads_continued: bool,
}

/// A source.
#[derive(Debug, Clone)]
pub struct Source {
    pub name: Option<String>,
    pub path: Option<String>,
    pub source_reference: Option<i64>,
}

/// A breakpoint to set in a source.
#[derive(Debug, Clone)]
pub struct SourceBreakpoint {
    pub line: u32,
    pub column: Option<u32>,
    pub condition: Option<String>,
    pub hit_condition: Option<String>,
    pub log_message: Option<String>,
}

/// A breakpoint on a function.
#[derive(Debug, Clone)]
pub struct FunctionBreakpoint {
    pub name: String,
    pub condition: Option<String>,
    pub hit_condition: Option<String>,
}

/// A breakpoint as the adapter reports it.
#[derive(Debug, Clone)]
pub struct Breakpoint {
    pub id: Option<u32>,
    pub verified: bool,
    pub message: Option<String>,
    pub source: Option<Source>,
    pub line: Option<u32>,
    pub column: Option<u32>,
}

/// A stack frame.
#[derive(Debug)]
pub struct StackFrame {
    pub id: i64,
    pub name: String,
    pub source: Option<Source>,
    pub line: u32,
    pub column: u32,
    pub module_id: Option<JsonValue>,
}

/// A thread.
#[derive(Debug, Clone)]
pub struct Thread {
    pub id: i64,
    pub name: String,
}

/// A scope.
#[derive(Debug, Clone)]
pub struct Scope {
    pub name: String,
    pub variables_reference: i64,
    pub expensive: bool,
    pub source: Option<Source>,
    pub line: Option<u32>,
}

/// A variable.
#[derive(Debug, Clone)]
pub struct Variable {
    pub name: String,
    pub value: String,
    pub value_type: Option<String>,
    pub variables_reference: i64,
}

/// The body of a stopped event.
#[derive(Debug, Clone)]
pub struct StoppedEventBody {
    pub reason: String,
    pub description: Option<String>,
    pub thread_id: Option<i64>,
    pub all_threads_stopped: bool,
    pub hit_breakpoint_ids: Vec<u32>,
    pub text: Option<String>,
}

/// The body of an output event.
#[derive(Debug, Clone)]
pub struct OutputEventBody {
    pub category: Option<String>,
    pub output: String,
    pub source: Option<Source>,
    pub line: Option<u32>,
}

/// The body of a thread event.
#[derive(Debug, Clone)]
pub struct ThreadEventBody {
    pub reason: String,
    pub thread_id: i64,
}

/// The body of an exited event.
#[derive(Debug, Clone, Copy)]
pub struct ExitedEventBody {
    pub exit_code: i32,
}

/// The body of a terminated event.
#[derive(Debug, Clone, Copy)]
pub struct TerminatedEventBody {
    pub restart: bool,
}

/// An event, read.
#[derive(Debug)]
pub enum Event {
    Initialized,
    Stopped(StoppedEventBody),
    Continued { thread_id: i64, all_threads_continued: bool },
    Exited(ExitedEventBody),
    Terminated(Option<TerminatedEventBody>),
    Thread(ThreadEventBody),
    Output(OutputEventBody),
    Breakpoint { reason: String, breakpoint: Breakpoint },
    Unknown { event: String, body: Option<JsonValue> },
}

// Reading fields. `None` means the field does not read.

/// A required string field.
pub open spec fn req_str(v: JsonValue, k: Seq<char>) -> Option<Seq<char>> {
    match crate::json::member(v, k) {
        Some(JsonValue::Str(s)) => Some(s@),
        _ => None,
    }
}

/// An optional string field.
pub open spec fn opt_str(v: JsonValue, k: Seq<char>) -> Option<Option<Seq<char>>> {
    match crate::json::member(v, k) {
        None => Some(None),
        Some(JsonValue::Null) => Some(None),
        Some(JsonValue::Str(s)) => Some(Some(s@)),
        _ => None,
    }
}

/// An optional `i64` field.
pub open spec fn opt_i64(v: JsonValue, k: Seq<char>) -> Option<Option<i64>> {
    match crate::json::member(v, k) {
        None => Some(None),
        Some(JsonValue::Null) => Some(None),
        Some(JsonValue::Number(n)) => Some(Some(n)),
        _ => None,
    }
}

/// A JSON number as a `u32`.
pub open spec fn as_u32(v: JsonValue) -> Option<u32> {
    match v {
        JsonValue::Number(n) => if 0 <= n <= u32::MAX {
            Some(n as u32)
        } else {
            None
        },
        _ => None,
    }
}

/// An optional `u32` field.
pub open spec fn opt_u32(v: JsonValue, k: Seq<char>) -> Option<Option<u32>> {
    match crate::json::member(v, k) {
        None => Some(None),
        Some(JsonValue::Null) => Some(None),
        Some(x) => match as_u32(x) {
            Some(n) => Some(Some(n)),
            None => None,
        },
    }
}

/// A required `i64` field.
pub open spec fn req_i64(v: JsonValue, k: Seq<char>) -> Option<i64> {
    match crate::json::member(v, k) {
        Some(JsonValue::Number(n)) => Some(n),
        _ => None,
    }
}

/// A required `i32` field.
pub open spec fn req_i32(v: JsonValue, k: Seq<char>) -> Option<i32> {
    match crate::json::member(v, k) {
        Some(JsonValue::Number(n)) => if i32::MIN <= n <= i32::MAX {
            Some(n as i32)
        } else {
            None
        },
        _ => None,
    }
}

/// A required boolean field.
pub open spec fn req_bool(v: JsonValue, k: Seq<char>) -> Option<bool> {
    match crate::json::member(v, k) {
        Some(JsonValue::Bool(b)) => Some(b),
        _ => None,
    }
}

/// A boolean field that is `false` when missing.
pub open spec fn bool_or_false(v: JsonValue, k: Seq<char>) -> Option<bool> {
    match crate::json::member(v, k) {
        None => Some(false),
        Some(JsonValue::Bool(b)) => Some(b),
        _ => None,
    }
}

/// Array items as `u32`s.
pub open spec fn u32_items(items: Seq<JsonValue>) -> Option<Seq<u32>>
    decreases items.len(),
{
    if items.len() == 0 {
        Some(seq![])
    } else {
        match (u32_items(items.drop_last()), as_u32(items.last())) {
            (Some(ns), Some(n)) => Some(ns.push(n)),
            _ => None,
        }
    }
}

/// A field holding an array of `u32`s, empty when missing.
pub open spec fn u32s_or_empty(v: JsonValue, k: Seq<char>) -> Option<Seq<u32>> {
    match crate::json::member(v, k) {
        None => Some(seq![]),
        Some(JsonValue::Array(items)) => u32_items(items@),
        _ => None,
    }
}

/// A source, as plain values.
pub struct SourceView {
    pub name: Option<Seq<char>>,
    pub path: Option<Seq<char>>,
    pub source_reference: Option<i64>,
}

/// The view of a source.
pub open spec fn source_view(s: Source) -> SourceView {
    SourceView { name: opt_text(s.name), path: opt_text(s.path), source_reference: s.source_reference }
}

/// The view of an optional source.
pub open spec fn opt_source_view(s: Option<Source>) -> Option<SourceView> {
    match s {
        Some(x) => Some(source_view(x)),
        None => None,
    }
}

/// A source read from JSON.
pub open spec fn source_of(v: JsonValue) -> Option<SourceView> {
    if v is Object {
        match (opt_str(v, "name"@), opt_str(v, "path"@), opt_i64(v, "sourceReference"@)) {
            (Some(name), Some(path), Some(source_reference)) => Some(SourceView { name, path, source_reference }),
            _ => None,
        }
    } else {
        None
    }
}

/// An optional source field.
pub open spec fn opt_source(v: JsonValue, k: Seq<char>) -> Option<Option<SourceView>> {
    match crate::json::member(v, k) {
        None => Some(None),
        Some(JsonValue::Null) => Some(None),
        Some(x) => match source_of(x) {
            Some(s) => Some(Some(s)),
            None => None,
        },
    }
}

/// The body of a stopped event, as plain values.
pub struct StoppedView {
    pub reason: Seq<char>,
    pub description: Option<Seq<char>>,
    pub thread_id: Option<i64>,
    pub all_threads_stopped: bool,
    pub hit_breakpoint_ids: Seq<u32>,
    pub text: Option<Seq<char>>,
}

/// The view of a stopped event's body.
pub open spec fn stopped_view(b: StoppedEventBody) -> StoppedView {
    StoppedView {
        reason: b.reason@,
        description: opt_text(b.description),
        thread_id: b.thread_id,
        all_threads_stopped: b.all_threads_stopped,
        hit_breakpoint_ids: b.hit_breakpoint_ids@,
        text: opt_text(b.text),
    }
}

/// A stopped event's body read from JSON.
pub open spec fn stopped_of(v: JsonValue) -> Option<StoppedView> {
    if v is Object {
        match (
            req_str(v, "reason"@),
            opt_str(v, "description"@),
            opt_i64(v, "threadId"@),
            bool_or_false(v, "allThreadsStopped"@),
            u32s_or_empty(v, "hitBreakpointIds"@),
            opt_str(v, "text"@),
        ) {
            (Some(reason), Some(description), Some(thread_id), Some(all_threads_stopped), Some(hit_breakpoint_ids), Some(text)) =>
                Some(StoppedView { reason, description, thread_id, all_threads_stopped, hit_breakpoint_ids, text }),
            _ => None,
        }
    } else {
        None
    }
}

/// The body of an output event, as plain values.
pub struct OutputView {
    pub category: Option<Seq<char>>,
    pub output: Seq<char>,
    pub source: Option<SourceView>,
    pub line: Option<u32>,
}

/// The view of an output event's body.
pub open spec fn output_view(b: OutputEventBody) -> OutputView {
    OutputView { category: opt_text(b.category), output: b.output@, source: opt_source_view(b.source), line: b.line }
}

/// An output event's body read from JSON.
pub open spec fn output_of(v: JsonValue) -> Option<OutputView> {
    if v is Object {
        match (opt_str(v, "category"@), req_str(v, "output"@), opt_source(v, "source"@), opt_u32(v, "line"@)) {
            (Some(category), Some(output), Some(source), Some(line)) => Some(OutputView { category, output, source, line }),
            _ => None,
        }
    } else {
        None
    }
}

/// A thread event's body read from JSON: its reason and thread.
pub open spec fn thread_of(v: JsonValue) -> Option<(Seq<char>, i64)> {
    if v is Object {
        match (req_str(v, "reason"@), req_i64(v, "threadId"@)) {
            (Some(reason), Some(id)) => Some((reason, id)),
            _ => None,
        }
    } else {
        None
    }
}

/// An exited event's exit code read from JSON.
pub open spec fn exited_of(v: JsonValue) -> Option<i32> {
    if v is Object {
        req_i32(v, "exitCode"@)
    } else {
        None
    }
}

/// A terminated event's restart flag read from JSON.
pub open spec fn terminated_of(v: JsonValue) -> Option<bool> {
    if v is Object {
        bool_or_false(v, "restart"@)
    } else {
        None
    }
}

/// A breakpoint, as plain values.
pub struct BreakpointView {
    pub id: Option<u32>,
    pub verified: bool,
    pub message: Option<Seq<char>>,
    pub source: Option<SourceView>,
    pub line: Option<u32>,
    pub column: Option<u32>,
}

/// The view of a breakpoint.
pub open spec fn breakpoint_view(b: Breakpoint) -> BreakpointView {
    BreakpointView {
        id: b.id,
        verified: b.verified,
        message: opt_text(b.message),
        source: opt_source_view(b.source),
        line: b.line,
        column: b.column,
    }
}

/// A breakpoint read from JSON.
pub open spec fn breakpoint_of(v: JsonValue) -> Option<BreakpointView> {
    if v is Object {
        match (
            opt_u32(v, "id"@),
            req_bool(v, "verified"@),
            opt_str(v, "message"@),
            opt_source(v, "source"@),
            opt_u32(v, "line"@),
            opt_u32(v, "column"@),
        ) {
            (Some(id), Some(verified), Some(message), Some(source), Some(line), Some(column)) =>
                Some(BreakpointView { id, verified, message, source, line, column }),
            _ => None,
        }
    } else {
        None
    }
}

fn read_req_str(v: &JsonValue, k: &str) -> (r: Option<String>)
    ensures
        opt_text(r) == req_str(*v, k@),
{
    match crate::json::member_ref(v, k) {
        Some(JsonValue::Str(s)) => Some(s.clone()),
        _ => None,
    }
}

fn read_opt_str(v: &JsonValue, k: &str) -> (r: Option<Option<String>>)
    ensures
        match r {
            Some(o) => opt_str(*v, k@) == Some(opt_text(o)),
            None => opt_str(*v, k@) is None,
        },
{
    match crate::json::member_ref(v, k) {
        None => Some(None),
        Some(JsonValue::Null) => Some(None),
        Some(JsonValue::Str(s)) => Some(Some(s.clone())),
        _ => None,
    }
}

fn read_opt_i64(v: &JsonValue, k: &str) -> (r: Option<Option<i64>>)
    ensures
        r == opt_i64(*v, k@),
{
    match crate::json::member_ref(v, k) {
        None => Some(None),
        Some(JsonValue::Null) => Some(None),
        Some(JsonValue::Number(n)) => Some(Some(*n)),
        _ => None,
    }
}

fn read_u32(x: &JsonValue) -> (r: Option<u32>)
    ensures
        r == as_u32(*x),
{
    match x {
        JsonValue::Number(n) => if 0 <= *n && *n <= 0xffff_ffff {
            Some(*n as u32)
        } else {
            None
        },
        _ => None,
    }
}

fn read_opt_u32(v: &JsonValue, k: &str) -> (r: Option<Option<u32>>)
    ensures
        r == opt_u32(*v, k@),
{
    match crate::json::member_ref(v, k) {
        None => Some(None),
        Some(JsonValue::Null) => Some(None),
        Some(x) => match read_u32(x) {
            Some(n) => Some(Some(n)),
            None => None,
        },
    }
}

fn read_req_i64(v: &JsonValue, k: &str) -> (r: Option<i64>)
    ensures
        r == req_i64(*v, k@),
{
    match crate::json::member_ref(v, k) {
        Some(JsonValue::Number(n)) => Some(*n),
        _ => None,
    }
}

fn read_req_i32(v: &JsonValue, k: &str) -> (r: Option<i32>)
    ensures
        r == req_i32(*v, k@),
{
    match crate::json::member_ref(v, k) {
        Some(JsonValue::Number(n)) => if -0x8000_0000 <= *n && *n <= 0x7fff_ffff {
            Some(*n as i32)
        } else {
            None
        },
        _ => None,
    }
}

fn read_req_bool(v: &JsonValue, k: &str) -> (r: Option<bool>)
    ensures
        r == req_bool(*v, k@),
{
    match crate::json::member_ref(v, k) {
        Some(JsonValue::Bool(b)) => Some(*b),
        _ => None,
    }
}

fn read_bool_or_false(v: &JsonValue, k: &str) -> (r: Option<bool>)
    ensures
        r == bool_or_false(*v, k@),
{
    match crate::json::member_ref(v, k) {
        None => Some(false),
        Some(JsonValue::Bool(b)) => Some(*b),
        _ => None,
    }
}

fn read_u32_items(items: &Vec<JsonValue>) -> (r: Option<Vec<u32>>)
    ensures
        match r {
            Some(ns) => u32_items(items@) == Some(ns@),
            None => u32_items(items@) is None,
        },
{
    let mut out: Vec<u32> = Vec::new();
    let mut k: usize = 0;
    while k < items.len()
        invariant
            k <= items@.len(),
            u32_items(items@.take(k as int)) == Some(out@),
        decreases items@.len() - k,
    {
        proof {
            assert(items@.take(k + 1).drop_last() =~= items@.take(k as int));
            assert(items@.take(k + 1).last() == items@[k as int]);
        }
        match read_u32(&items[k]) {
            Some(n) => {
                out.push(n);
            },
            None => {
                proof {
                    lemma_u32_items_prefix(items@, k as int + 1);
                }
                return None;
            },
        }
        k = k + 1;
    }
    proof {
        assert(items@.take(items@.len() as int) =~= items@);
    }
    Some(out)
}

/// A sequence whose prefix does not read as `u32`s does not read either.
proof fn lemma_u32_items_prefix(items: Seq<JsonValue>, n: int)
    requires
        0 <= n <= items.len(),
        u32_items(items.take(n)) is None,
    ensures
        u32_items(items) is None,
    decreases items.len() - n,
{
    if n < items.len() {
        assert(items.take(n + 1).drop_last() =~= items.take(n));
        lemma_u32_items_prefix(items, n + 1);
    } else {
        assert(items.take(n) =~= items);
    }
}

fn read_u32s_or_empty(v: &JsonValue, k: &str) -> (r: Option<Vec<u32>>)
    ensures
        match r {
            Some(ns) => u32s_or_empty(*v, k@) == Some(ns@),
            None => u32s_or_empty(*v, k@) is None,
        },
{
    match crate::json::member_ref(v, k) {
        None => Some(Vec::new()),
        Some(JsonValue::Array(items)) => read_u32_items(items),
        _ => None,
    }
}

/// Reads a source from JSON.
pub fn decode_source(v: &JsonValue) -> (r: Option<Source>)
    ensures
        match source_of(*v) {
            Some(sv) => (r matches Some(s) && source_view(s) == sv),
            None => r is None,
        },
{
    match v {
        JsonValue::Object(_) => {},
        _ => {
            return None;
        },
    }
    let name = match read_opt_str(v, "name") {
        Some(x) => x,
        None => {
            return None;
        },
    };
    let path = match read_opt_str(v, "path") {
        Some(x) => x,
        None => {
            return None;
        },
    };
    let source_reference = match read_opt_i64(v, "sourceReference") {
        Some(x) => x,
        None => {
            return None;
        },
    };
    Some(Source { name, path, source_reference })
}

fn read_opt_source(v: &JsonValue, k: &str) -> (r: Option<Option<Source>>)
    ensures
        match r {
            Some(o) => opt_source(*v, k@) == Some(opt_source_view(o)),
            None => opt_source(*v, k@) is None,
        },
{
    match crate::json::member_ref(v, k) {
        None => Some(None),
        Some(JsonValue::Null) => Some(None),
        Some(x) => match decode_source(x) {
            Some(s) => Some(Some(s)),
            None => None,
        },
    }
}

/// Reads a stopped event's body from JSON.
pub fn decode_stopped(v: &JsonValue) -> (r: Option<StoppedEventBody>)
    ensures
        match stopped_of(*v) {
            Some(sv) => (r matches Some(b) && stopped_view(b) == sv),
            None => r is None,
        },
{
    match v {
        JsonValue::Object(_) => {},
        _ => {
            return None;
        },
    }
    let reason = match read_req_str(v, "reason") {
        Some(x) => x,
        None => {
            return None;
        },
    };
    let description = match read_opt_str(v, "description") {
        Some(x) => x,
        None => {
            return None;
        },
    };
    let thread_id = match read_opt_i64(v, "threadId") {
        Some(x) => x,
        None => {
            return None;
        },
    };
    let all_threads_stopped = match read_bool_or_false(v, "allThreadsStopped") {
        Some(x) => x,
        None => {
            return None;
        },
    };
    let hit_breakpoint_ids = match read_u32s_or_empty(v, "hitBreakpointIds") {
        Some(x) => x,
        None => {
            return None;
        },
    };
    let text = match read_opt_str(v, "text") {
        Some(x) => x,
        None => {
            return None;
        },
    };
    Some(StoppedEventBody { reason, description, thread_id, all_threads_stopped, hit_breakpoint_ids, text })
}

/// Reads an output event's body from JSON.
pub fn decode_output(v: &JsonValue) -> (r: Option<OutputEventBody>)
    ensures
        match output_of(*v) {
            Some(ov) => (r matches Some(b) && output_view(b) == ov),
            None => r is None,
        },
{
    match v {
        JsonValue::Object(_) => {},
        _ => {
            return None;
        },
    }
    let category = match read_opt_str(v, "category") {
        Some(x) => x,
        None => {
            return None;
        },
    };
    let output = match read_req_str(v, "output") {
        Some(x) => x,
        None => {
            return None;
        },
    };
    let source = match read_opt_source(v, "source") {
        Some(x) => x,
        None => {
            return None;
        },
    };
    let line = match read_opt_u32(v, "line") {
        Some(x) => x,
        None => {
            return None;
        },
    };
    Some(OutputEventBody { category, output, source, line })
}

/// Reads a thread event's body from JSON.
pub fn decode_thread(v: &JsonValue) -> (r: Option<ThreadEventBody>)
    ensures
        match thread_of(*v) {
            Some((reason, id)) => (r matches Some(b) && b.reason@ == reason && b.thread_id == id),
            None => r is None,
        },
{
    match v {
        JsonValue::Object(_) => {},
        _ => {
            return None;
        },
    }
    let reason = match read_req_str(v, "reason") {
        Some(x) => x,
        None => {
            return None;
        },
    };
    let thread_id = match read_req_i64(v, "threadId") {
        Some(x) => x,
        None => {
            return None;
        },
    };
    Some(ThreadEventBody { reason, thread_id })
}

/// Reads an exited event's body from JSON.
pub fn decode_exited(v: &JsonValue) -> (r: Option<ExitedEventBody>)
    ensures
        match exited_of(*v) {
            Some(c) => (r matches Some(b) && b.exit_code == c),
            None => r is None,
        },
{
    match v {
        JsonValue::Object(_) => {},
        _ => {
            return None;
        },
    }
    match read_req_i32(v, "exitCode") {
        Some(exit_code) => Some(ExitedEventBody { exit_code }),
        None => None,
    }
}

/// Reads a terminated event's body from JSON.
pub fn decode_terminated(v: &JsonValue) -> (r: Option<TerminatedEventBody>)
    ensures
        match terminated_of(*v) {
            Some(x) => (r matches Some(b) && b.restart == x),
            None => r is None,
        },
{
    match v {
        JsonValue::Object(_) => {},
        _ => {
            return None;
        },
    }
    match read_bool_or_false(v, "restart") {
        Some(restart) => Some(TerminatedEventBody { restart }),
        None => None,
    }
}

/// Reads a breakpoint from JSON.
pub fn decode_breakpoint(v: &JsonValue) -> (r: Option<Breakpoint>)
    ensures
        match breakpoint_of(*v) {
            Some(bv) => (r matches Some(b) && breakpoint_view(b) == bv),
            None => r is None,
        },
{
    match v {
        JsonValue::Object(_) => {},
        _ => {
            return None;
        },
    }
    let id = match read_opt_u32(v, "id") {
        Some(x) => x,
        None => {
            return None;
        },
    };
    let verified = match read_req_bool(v, "verified") {
        Some(x) => x,
        None => {
            return None;
        },
    };
    let message = match read_opt_str(v, "message") {
        Some(x) => x,
        None => {
            return None;
        },
    };
    let source = match read_opt_source(v, "source") {
        Some(x) => x,
        None => {
            return None;
        },
    };
    let line = match read_opt_u32(v, "line") {
        Some(x) => x,
        None => {
            return None;
        },
    };
    let column = match read_opt_u32(v, "column") {
        Some(x) => x,
        None => {
            return None;
        },
    };
    Some(Breakpoint { id, verified, message, source, line, column })
}

/// `e` is the event that unknown `event` text and `body` give.
pub open spec fn is_unknown(e: Event, event: Seq<char>, body: Option<JsonValue>) -> bool {
    e matches Event::Unknown { event: t, body: b } && t@ == event && b == body
}

/// `e` is what the event message `event` with `body` reads as.
pub open spec fn event_reads_as(e: Event, event: Seq<char>, body: Option<JsonValue>) -> bool {
    if event == "initialized"@ {
        e is Initialized
    } else if event == "stopped"@ {
        match body {
            Some(b) if stopped_of(b) is Some => (e matches Event::Stopped(s) && Some(stopped_view(s)) == stopped_of(b)),
            _ => is_unknown(e, event, body),
        }
    } else if event == "continued"@ {
        let thread_id = match body {
            Some(b) => match crate::json::member(b, "threadId"@) {
                Some(JsonValue::Number(n)) => n,
                _ => 0,
            },
            None => 0,
        };
        let all = match body {
            Some(b) => match crate::json::member(b, "allThreadsContinued"@) {
                Some(JsonValue::Bool(x)) => x,
                _ => true,
            },
            None => true,
        };
        e == Event::Continued { thread_id, all_threads_continued: all }
    } else if event == "exited"@ {
        let code = match body {
            Some(b) => match exited_of(b) {
                Some(c) => c,
                None => 0,
            },
            None => 0,
        };
        e matches Event::Exited(x) && x.exit_code == code
    } else if event == "terminated"@ {
        match body {
            Some(b) => match terminated_of(b) {
                Some(r) => (e matches Event::Terminated(Some(t)) && t.restart == r),
                None => e == Event::Terminated(None),
            },
            None => e == Event::Terminated(None),
        }
    } else if event == "thread"@ {
        match body {
            Some(b) if thread_of(b) is Some => (e matches Event::Thread(t) && Some((t.reason@, t.thread_id)) == thread_of(b)),
            _ => is_unknown(e, event, body),
        }
    } else if event == "output"@ {
        match body {
            Some(b) if output_of(b) is Some => (e matches Event::Output(o) && Some(output_view(o)) == output_of(b)),
            _ => is_unknown(e, event, body),
        }
    } else if event == "breakpoint"@ {
        match body {
            Some(b) => match crate::json::member(b, "breakpoint"@) {
                Some(bp) if breakpoint_of(bp) is Some => {
                    let reason = match req_str(b, "reason"@) {
                        Some(r) => r,
                        None => "unknown"@,
                    };
                    e matches Event::Breakpoint { reason: r, breakpoint: x } && r@ == reason && Some(
                        breakpoint_view(x),
                    ) == breakpoint_of(bp)
                },
                _ => is_unknown(e, event, body),
            },
            None => is_unknown(e, event, body),
        }
    } else {
        is_unknown(e, event, body)
    }
}

impl Event {
    /// Reads an event message: known events with a body that reads become
    /// typed events; anything else stays as it came.
    #[verifier::rlimit(30)]
    pub fn from_message(msg: EventMessage) -> (e: Event)
        ensures
            event_reads_as(e, msg.event@, msg.body),
    {
        let name = crate::text::chars_of(msg.event.as_str());
        let n = name.as_slice();
        if crate::text::eq_str(n, "initialized") {
            Event::Initialized
        } else if crate::text::eq_str(n, "stopped") {
            let decoded = match &msg.body {
                Some(b) => decode_stopped(b),
                None => None,
            };
            match decoded {
                Some(s) => Event::Stopped(s),
                None => Event::Unknown { event: msg.event, body: msg.body },
            }
        } else if crate::text::eq_str(n, "continued") {
            let (thread_id, all_threads_continued) = match &msg.body {
                Some(b) => {
                    let t = match crate::json::member_ref(b, "threadId") {
                        Some(JsonValue::Number(x)) => *x,
                        _ => 0,
                    };
                    let a = match crate::json::member_ref(b, "allThreadsContinued") {
                        Some(JsonValue::Bool(x)) => *x,
                        _ => true,
                    };
                    (t, a)
                },
                None => (0, true),
            };
            Event::Continued { thread_id, all_threads_continued }
        } else if crate::text::eq_str(n, "exited") {
            let decoded = match &msg.body {
                Some(b) => decode_exited(b),
                None => None,
            };
            match decoded {
                Some(x) => Event::Exited(x),
                None => Event::Exited(ExitedEventBody { exit_code: 0 }),
            }
        } else if crate::text::eq_str(n, "terminated") {
            let decoded = match &msg.body {
                Some(b) => decode_terminated(b),
                None => None,
            };
            Event::Terminated(decoded)
        } else if crate::text::eq_str(n, "thread") {
            let decoded = match &msg.body {
                Some(b) => decode_thread(b),
                None => None,
            };
            match decoded {
                Some(t) => Event::Thread(t),
                None => Event::Unknown { event: msg.event, body: msg.body },
            }
        } else if crate::text::eq_str(n, "output") {
            let decoded = match &msg.body {
                Some(b) => decode_output(b),
                None => None,
            };
            match decoded {
                Some(o) => Event::Output(o),
                None => Event::Unknown { event: msg.event, body: msg.body },
            }
        } else if crate::text::eq_str(n, "breakpoint") {
            let decoded = match &msg.body {
                Some(b) => match crate::json::member_ref(b, "breakpoint") {
                    Some(bp) => match decode_breakpoint(bp) {
                        Some(x) => {
                            let reason = match read_req_str(b, "reason") {
                                Some(r) => r,
                                None => String::from_str("unknown"),
                            };
                            Some((reason, x))
                        },
                        None => None,
                    },
                    None => None,
                },
                None => None,
            };
            match decoded {
                Some((reason, breakpoint)) => Event::Breakpoint { reason, breakpoint },
                None => Event::Unknown { event: msg.event, body: msg.body },
            }
        } else {
            Event::Unknown { event: msg.event, body: msg.body }
        }
    }
}

} // verus!
