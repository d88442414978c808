//! A scripted debug adapter for exercising clients without a real
//! debugger: its state, and the replies it gives to each request.
//!
//! Replies are stated over the plain form of JSON values (`JsonView`).

use vstd::prelude::*;
use crate::json::{
    JsonValue, JsonView, json_view, member, object, array, put, push_item, jstr, items_view,
    entries_view,
};

verus! {

/// The string member `key`, when it is a string.
pub open spec fn str_at(v: JsonValue, key: Seq<char>) -> Option<Seq<char>> {
    match member(v, key) {
        Some(JsonValue::Str(s)) => Some(s@),
        _ => None,
    }
}

/// The boolean member `key`, when it is a boolean.
pub open spec fn bool_at(v: JsonValue, key: Seq<char>) -> Option<bool> {
    match member(v, key) {
        Some(JsonValue::Bool(b)) => Some(b),
        _ => None,
    }
}

/// The member `key` as a signed integer, when it is one.
pub open spec fn i64_at(v: JsonValue, key: Seq<char>) -> Option<i64> {
    match member(v, key) {
        Some(JsonValue::Number(n)) => Some(n),
        _ => None,
    }
}

/// A value as an unsigned integer, when it is one.
pub open spec fn u64_of(v: JsonValue) -> Option<u64> {
    match v {
        JsonValue::Number(n) => if n >= 0 {
            Some(n as u64)
        } else {
            None
        },
        JsonValue::OtherNumber(t) => match crate::number::parse_unsigned(t@, u64::MAX as nat) {
            Some(x) => Some(x as u64),
            None => None,
        },
        _ => None,
    }
}

/// The member `key` as an unsigned integer, when it is one.
pub open spec fn u64_at(v: JsonValue, key: Seq<char>) -> Option<u64> {
    match member(v, key) {
        Some(x) => u64_of(x),
        None => None,
    }
}

/// The items of the array member `key`; none when there is no such array.
pub open spec fn items_at(v: JsonValue, key: Seq<char>) -> Seq<JsonValue> {
    match member(v, key) {
        Some(JsonValue::Array(xs)) => xs@,
        _ => seq![],
    }
}

/// The string member `key`, or `dflt`.
pub open spec fn str_or(v: JsonValue, key: Seq<char>, dflt: Seq<char>) -> Seq<char> {
    match str_at(v, key) {
        Some(s) => s,
        None => dflt,
    }
}

fn str_value(v: &JsonValue, key: &str) -> (r: Option<String>)
    ensures
        match r {
            Some(s) => str_at(*v, key@) == Some(s@),
            None => str_at(*v, key@) is None,
        },
{
    crate::json::get_str(v, key)
}

fn str_value_or(v: &JsonValue, key: &str, dflt: &str) -> (r: String)
    ensures
        r@ == str_or(*v, key@, dflt@),
{
    match crate::json::get_str(v, key) {
        Some(s) => s,
        None => String::from_str(dflt),
    }
}

fn u64_value(v: &JsonValue) -> (r: Option<u64>)
    ensures
        r == u64_of(*v),
{
    match v {
        JsonValue::Number(n) => if *n >= 0 {
            Some(*n as u64)
        } else {
            None
        },
        JsonValue::OtherNumber(t) => {
            let cs = crate::text::chars_of(t.as_str());
            crate::number::parse_u64(cs.as_slice())
        },
        _ => None,
    }
}

fn u64_member(v: &JsonValue, key: &str) -> (r: Option<u64>)
    ensures
        r == u64_at(*v, key@),
{
    match crate::json::member_ref(v, key) {
        Some(x) => u64_value(x),
        None => None,
    }
}

fn items_member<'a>(v: &'a JsonValue, key: &str) -> (r: &'a [JsonValue])
    ensures
        r@ == items_at(*v, key@),
{
    match crate::json::member_ref(v, key) {
        Some(JsonValue::Array(xs)) => xs.as_slice(),
        _ => &[],
    }
}

/// The plain state of the adapter.
pub struct MockView {
    pub seq: int,
    pub initialized: bool,
    pub launched: bool,
    pub program: Option<Seq<char>>,
    pub current_line: u32,
    pub current_file: Seq<char>,
    pub stopped: bool,
    /// Per source path, the lines last set there.
    pub breakpoints: Seq<(Seq<char>, Seq<u32>)>,
    /// Data identifier and access type of each watchpoint.
    pub data_breakpoints: Seq<(Seq<char>, Seq<char>)>,
    /// Name, value and type of each variable.
    pub variables: Seq<(Seq<char>, Seq<char>, Seq<char>)>,
    pub stop_on_entry: bool,
}

/// The adapter's state.
pub struct MockState {
    pub seq: i64,
    pub initialized: bool,
    pub launched: bool,
    pub program: Option<String>,
    pub current_line: u32,
    pub current_file: String,
    pub stopped: bool,
    pub breakpoints: Vec<(String, Vec<u32>)>,
    pub data_breakpoints: Vec<(String, String)>,
    pub variables: Vec<(String, String, String)>,
    pub stop_on_entry: bool,
}

pub open spec fn opt_view(o: Option<String>) -> Option<Seq<char>> {
    match o {
        Some(s) => Some(s@),
        None => None,
    }
}

pub open spec fn lines_view(b: Seq<(String, Vec<u32>)>) -> Seq<(Seq<char>, Seq<u32>)> {
    Seq::new(b.len(), |i: int| (b[i].0@, b[i].1@))
}

pub open spec fn pairs_view(d: Seq<(String, String)>) -> Seq<(Seq<char>, Seq<char>)> {
    Seq::new(d.len(), |i: int| (d[i].0@, d[i].1@))
}

pub open spec fn vars_view(v: Seq<(String, String, String)>) -> Seq<(Seq<char>, Seq<char>, Seq<char>)> {
    Seq::new(v.len(), |i: int| (v[i].0@, v[i].1@, v[i].2@))
}

impl View for MockState {
    type V = MockView;

    open spec fn view(&self) -> MockView {
        MockView {
            seq: self.seq as int,
            initialized: self.initialized,
            launched: self.launched,
            program: opt_view(self.program),
            current_line: self.current_line,
            current_file: self.current_file@,
            stopped: self.stopped,
            breakpoints: lines_view(self.breakpoints@),
            data_breakpoints: pairs_view(self.data_breakpoints@),
            variables: vars_view(self.variables@),
            stop_on_entry: self.stop_on_entry,
        }
    }
}

/// The state the adapter starts in: sequence number 1, line 1 of
/// `main.c`, and three variables.
pub open spec fn initial_mock() -> MockView {
    MockView {
        seq: 1,
        initialized: false,
        launched: false,
        program: None,
        current_line: 1,
        current_file: "main.c"@,
        stopped: false,
        breakpoints: seq![],
        data_breakpoints: seq![],
        variables: seq![
            ("x"@, "42"@, "int"@),
            ("y"@, "3.14"@, "double"@),
            ("name"@, "\"hello\""@, "const char*"@),
        ],
        stop_on_entry: false,
    }
}

fn var_entry(name: &str, value: &str, ty: &str) -> (r: (String, String, String))
    ensures
        r.0@ == name@,
        r.1@ == value@,
        r.2@ == ty@,
{
    (String::from_str(name), String::from_str(value), String::from_str(ty))
}

impl Default for MockState {
    fn default() -> (s: Self)
        ensures
            s@ == initial_mock(),
    {
        let mut variables: Vec<(String, String, String)> = Vec::new();
        variables.push(var_entry("x", "42", "int"));
        variables.push(var_entry("y", "3.14", "double"));
        variables.push(var_entry("name", "\"hello\"", "const char*"));
        let s = MockState {
            seq: 1,
            initialized: false,
            launched: false,
            program: None,
            current_line: 1,
            current_file: String::from_str("main.c"),
            stopped: false,
            breakpoints: Vec::new(),
            data_breakpoints: Vec::new(),
            variables,
            stop_on_entry: false,
        };
        proof {
            assert(lines_view(s.breakpoints@) =~= seq![]);
            assert(pairs_view(s.data_breakpoints@) =~= seq![]);
            assert(vars_view(s.variables@) =~= initial_mock().variables);
        }
        s
    }
}

/// A string value.
pub open spec fn vstr(s: Seq<char>) -> JsonView {
    JsonView::Str(s)
}

/// A number value.
pub open spec fn vnum(n: int) -> JsonView {
    JsonView::Number(n)
}

/// An event the adapter sends after its response.
pub enum MockEvent {
    Initialized,
    Stopped { reason: Seq<char>, hit: bool },
}

/// The body of a stopped event on thread 1; `hit` adds breakpoint 1 as the
/// one hit.
pub open spec fn stopped_body_view(reason: Seq<char>, hit: bool) -> JsonView {
    let base = seq![
        ("reason"@, vstr(reason)),
        ("threadId"@, vnum(1)),
        ("allThreadsStopped"@, JsonView::Bool(true)),
    ];
    if hit {
        JsonView::Object(base.push(("hitBreakpointIds"@, JsonView::Array(seq![vnum(1)]))))
    } else {
        JsonView::Object(base)
    }
}

/// An event message with sequence number `seq`.
pub open spec fn event_view(seq: int, e: MockEvent) -> JsonView {
    match e {
        MockEvent::Initialized => JsonView::Object(
            seq![("seq"@, vnum(seq)), ("type"@, vstr("event"@)), ("event"@, vstr("initialized"@))],
        ),
        MockEvent::Stopped { reason, hit } => JsonView::Object(
            seq![
                ("seq"@, vnum(seq)),
                ("type"@, vstr("event"@)),
                ("event"@, vstr("stopped"@)),
                ("body"@, stopped_body_view(reason, hit)),
            ],
        ),
    }
}

/// Event messages numbered from `first` on.
pub open spec fn events_view(first: int, es: Seq<MockEvent>) -> Seq<JsonView> {
    Seq::new(es.len(), |i: int| event_view(first + i, es[i]))
}

/// The response message to request `request_seq`.
pub open spec fn response_view(
    seq: int,
    request_seq: i64,
    success: bool,
    command: Seq<char>,
    body: JsonView,
) -> JsonView {
    JsonView::Object(
        seq![
            ("seq"@, vnum(seq)),
            ("type"@, vstr("response"@)),
            ("request_seq"@, vnum(request_seq as int)),
            ("success"@, JsonView::Bool(success)),
            ("command"@, vstr(command)),
            ("body"@, body),
        ],
    )
}

/// What handling one command comes to: whether it succeeded, the response
/// body, the events that follow, and the state after (its sequence number
/// not yet advanced for the events).
pub struct MockOutcome {
    pub success: bool,
    pub body: JsonView,
    pub events: Seq<MockEvent>,
    pub state: MockView,
}

/// `st` with sequence number `seq`.
pub open spec fn with_seq(st: MockView, seq: int) -> MockView {
    MockView { seq: seq, ..st }
}

/// A command that succeeds with `body`, sends nothing more and changes
/// nothing.
pub open spec fn plain(st: MockView, body: JsonView) -> MockOutcome {
    MockOutcome { success: true, body: body, events: seq![], state: st }
}

/// Whether an exec step did what `o` says, from state `before` to `after`,
/// with `r` its success and body and the events appended.
pub open spec fn performs(
    before: MockView,
    after: MockView,
    old_events: Seq<JsonValue>,
    new_events: Seq<JsonValue>,
    r: (bool, JsonValue),
    o: MockOutcome,
) -> bool {
    &&& r.0 == o.success
    &&& json_view(r.1) == o.body
    &&& items_view(new_events) == items_view(old_events) + events_view(before.seq, o.events)
    &&& after == with_seq(o.state, before.seq + o.events.len())
}

impl MockState {
    fn next_seq(&mut self) -> (r: i64)
        requires
            old(self).seq < i64::MAX,
        ensures
            r == old(self).seq,
            final(self)@ == with_seq(old(self)@, old(self)@.seq + 1),
    {
        let seq = self.seq;
        self.seq = self.seq + 1;
        seq
    }
}

fn num(n: i64) -> (r: JsonValue)
    ensures
        json_view(r) == vnum(n as int),
{
    JsonValue::Number(n)
}

fn text(s: &str) -> (r: JsonValue)
    ensures
        json_view(r) == vstr(s@),
{
    jstr(s)
}

fn text_of(s: String) -> (r: JsonValue)
    ensures
        json_view(r) == vstr(s@),
{
    JsonValue::Str(s)
}

/// A stopped event message.
fn stopped_event(seq: i64, reason: &str, hit: bool) -> (r: JsonValue)
    ensures
        json_view(r) == event_view(seq as int, MockEvent::Stopped { reason: reason@, hit: hit }),
{
    let mut b: Vec<(String, JsonValue)> = Vec::new();
    proof {
        assert(entries_view(b@) =~= seq![]);
    }
    put(&mut b, "reason", text(reason));
    put(&mut b, "threadId", num(1));
    put(&mut b, "allThreadsStopped", JsonValue::Bool(true));
    if hit {
        let mut ids: Vec<JsonValue> = Vec::new();
        proof {
            assert(items_view(ids@) =~= seq![]);
        }
        push_item(&mut ids, num(1));
        put(&mut b, "hitBreakpointIds", array(ids));
        proof {
            assert(items_view(ids@) =~= seq![vnum(1)]);
        }
    }
    proof {
        let base = seq![
            ("reason"@, vstr(reason@)),
            ("threadId"@, vnum(1)),
            ("allThreadsStopped"@, JsonView::Bool(true)),
        ];
        if hit {
            assert(entries_view(b@) =~= base.push(("hitBreakpointIds"@, JsonView::Array(seq![vnum(1)]))));
        } else {
            assert(entries_view(b@) =~= base);
        }
    }
    let body = object(b);
    let mut e: Vec<(String, JsonValue)> = Vec::new();
    proof {
        assert(entries_view(e@) =~= seq![]);
    }
    put(&mut e, "seq", num(seq));
    put(&mut e, "type", text("event"));
    put(&mut e, "event", text("stopped"));
    put(&mut e, "body", body);
    proof {
        assert(entries_view(e@) =~= seq![
            ("seq"@, vnum(seq as int)),
            ("type"@, vstr("event"@)),
            ("event"@, vstr("stopped"@)),
            ("body"@, stopped_body_view(reason@, hit)),
        ]);
    }
    object(e)
}

/// The initialized event message.
fn initialized_event(seq: i64) -> (r: JsonValue)
    ensures
        json_view(r) == event_view(seq as int, MockEvent::Initialized),
{
    let mut e: Vec<(String, JsonValue)> = Vec::new();
    proof {
        assert(entries_view(e@) =~= seq![]);
    }
    put(&mut e, "seq", num(seq));
    put(&mut e, "type", text("event"));
    put(&mut e, "event", text("initialized"));
    proof {
        assert(entries_view(e@) =~= seq![
            ("seq"@, vnum(seq as int)),
            ("type"@, vstr("event"@)),
            ("event"@, vstr("initialized"@)),
        ]);
    }
    object(e)
}

impl MockState {
    /// Sends a stopped event, numbered with the next sequence number.
    fn emit_stopped(&mut self, events: &mut Vec<JsonValue>, reason: &str, hit: bool)
        requires
            old(self).seq < i64::MAX,
        ensures
            final(self)@ == with_seq(old(self)@, old(self)@.seq + 1),
            items_view(final(events)@) == items_view(old(events)@) + events_view(
                old(self)@.seq,
                seq![MockEvent::Stopped { reason: reason@, hit: hit }],
            ),
    {
        let s = self.next_seq();
        let e = stopped_event(s, reason, hit);
        push_item(events, e);
        proof {
            let ev = seq![MockEvent::Stopped { reason: reason@, hit: hit }];
            assert(items_view(old(events)@).push(json_view(e)) =~= items_view(old(events)@)
                + events_view(old(self)@.seq, ev));
        }
    }
}

/// The capabilities the adapter announces: all true.
pub open spec fn capabilities_view() -> JsonView {
    JsonView::Object(
        seq![
            ("supportsConfigurationDoneRequest"@, JsonView::Bool(true)),
            ("supportsFunctionBreakpoints"@, JsonView::Bool(true)),
            ("supportsConditionalBreakpoints"@, JsonView::Bool(true)),
            ("supportsHitConditionalBreakpoints"@, JsonView::Bool(true)),
            ("supportsEvaluateForHovers"@, JsonView::Bool(true)),
            ("supportsSetVariable"@, JsonView::Bool(true)),
            ("supportsRestartRequest"@, JsonView::Bool(true)),
            ("supportsDataBreakpoints"@, JsonView::Bool(true)),
            ("supportsReadMemoryRequest"@, JsonView::Bool(true)),
            ("supportsDisassembleRequest"@, JsonView::Bool(true)),
            ("supportsTerminateRequest"@, JsonView::Bool(true)),
        ],
    )
}

/// `initialize`: marks the adapter initialized and announces the
/// capabilities.
pub open spec fn on_initialize(st: MockView) -> MockOutcome {
    plain(MockView { initialized: true, ..st }, capabilities_view())
}

/// `launch`: records the program and whether to stop on entry (no by
/// default); stopping on entry leaves the program stopped.
pub open spec fn on_launch(st: MockView, args: JsonValue) -> MockOutcome {
    let soe = match bool_at(args, "stopOnEntry"@) {
        Some(b) => b,
        None => false,
    };
    plain(
        MockView {
            launched: true,
            program: str_at(args, "program"@),
            stop_on_entry: soe,
            stopped: if soe {
                true
            } else {
                st.stopped
            },
            ..st
        },
        JsonView::Null,
    )
}

/// `attach`: launched and stopped.
pub open spec fn on_attach(st: MockView) -> MockOutcome {
    plain(MockView { launched: true, stopped: true, ..st }, JsonView::Null)
}

/// `configurationDone`: the initialized event, then a stop at the entry
/// when the launch asked for one.
pub open spec fn on_configuration_done(st: MockView) -> MockOutcome {
    MockOutcome {
        success: true,
        body: JsonView::Null,
        events: if st.stop_on_entry {
            seq![MockEvent::Initialized, MockEvent::Stopped { reason: "entry"@, hit: false }]
        } else {
            seq![MockEvent::Initialized]
        },
        state: st,
    }
}

/// `continue`: runs one line on and stops at breakpoint 1.
pub open spec fn on_continue(st: MockView) -> MockOutcome {
    MockOutcome {
        success: true,
        body: JsonView::Object(seq![("allThreadsContinued"@, JsonView::Bool(true))]),
        events: seq![MockEvent::Stopped { reason: "breakpoint"@, hit: true }],
        state: MockView { current_line: (st.current_line + 1) as u32, stopped: true, ..st },
    }
}

/// `next`, `stepIn`, `stepOut`: one line on, then a step stop.
pub open spec fn on_step(st: MockView) -> MockOutcome {
    MockOutcome {
        success: true,
        body: JsonView::Null,
        events: seq![MockEvent::Stopped { reason: "step"@, hit: false }],
        state: MockView { current_line: (st.current_line + 1) as u32, stopped: true, ..st },
    }
}

/// `pause`: stopped.
pub open spec fn on_pause(st: MockView) -> MockOutcome {
    plain(MockView { stopped: true, ..st }, JsonView::Null)
}

/// `threads`: the one thread, 1, named `main`.
pub open spec fn on_threads(st: MockView) -> MockOutcome {
    plain(
        st,
        JsonView::Object(
            seq![
                (
                    "threads"@,
                    JsonView::Array(
                        seq![JsonView::Object(seq![("id"@, vnum(1)), ("name"@, vstr("main"@))])],
                    ),
                ),
            ],
        ),
    )
}

/// `scopes`: locals under reference 1000, globals under 2000.
pub open spec fn on_scopes(st: MockView) -> MockOutcome {
    plain(
        st,
        JsonView::Object(
            seq![
                (
                    "scopes"@,
                    JsonView::Array(
                        seq![
                            JsonView::Object(
                                seq![
                                    ("name"@, vstr("Locals"@)),
                                    ("variablesReference"@, vnum(1000)),
                                    ("expensive"@, JsonView::Bool(false)),
                                ],
                            ),
                            JsonView::Object(
                                seq![
                                    ("name"@, vstr("Globals"@)),
                                    ("variablesReference"@, vnum(2000)),
                                    ("expensive"@, JsonView::Bool(true)),
                                ],
                            ),
                        ],
                    ),
                ),
            ],
        ),
    )
}

/// `stackTrace`: `main` at the current line of the current file, above
/// `__libc_start_main`.
pub open spec fn on_stack_trace(st: MockView) -> MockOutcome {
    plain(
        st,
        JsonView::Object(
            seq![
                (
                    "stackFrames"@,
                    JsonView::Array(
                        seq![
                            JsonView::Object(
                                seq![
                                    ("id"@, vnum(1)),
                                    ("name"@, vstr("main"@)),
                                    (
                                        "source"@,
                                        JsonView::Object(
                                            seq![
                                                ("name"@, vstr(st.current_file)),
                                                ("path"@, vstr("/test/"@ + st.current_file)),
                                            ],
                                        ),
                                    ),
                                    ("line"@, vnum(st.current_line as int)),
                                    ("column"@, vnum(1)),
                                ],
                            ),
                            JsonView::Object(
                                seq![
                                    ("id"@, vnum(2)),
                                    ("name"@, vstr("__libc_start_main"@)),
                                    ("line"@, vnum(0)),
                                    ("column"@, vnum(0)),
                                ],
                            ),
                        ],
                    ),
                ),
                ("totalFrames"@, vnum(2)),
            ],
        ),
    )
}

/// `restart`: back to line 1, stopped at the entry.
pub open spec fn on_restart(st: MockView) -> MockOutcome {
    MockOutcome {
        success: true,
        body: JsonView::Null,
        events: seq![MockEvent::Stopped { reason: "entry"@, hit: false }],
        state: MockView { current_line: 1, stopped: true, ..st },
    }
}

/// `disconnect`: neither launched nor stopped.
pub open spec fn on_disconnect(st: MockView) -> MockOutcome {
    plain(MockView { launched: false, stopped: false, ..st }, JsonView::Null)
}

/// A command the adapter does not know: failure, with a message naming it.
pub open spec fn on_unknown(st: MockView, command: Seq<char>) -> MockOutcome {
    MockOutcome {
        success: false,
        body: JsonView::Object(seq![("message"@, vstr("Unknown command: "@ + command))]),
        events: seq![],
        state: st,
    }
}

fn text_pair(a: &str, b: &str) -> (r: String)
    ensures
        r@ == a@ + b@,
{
    let mut m = crate::text::chars_of(a);
    crate::text::append_str(&mut m, b);
    crate::text::string_from(m.as_slice())
}

fn text_triple(a: &str, b: &str, c: &str) -> (r: String)
    ensures
        r@ == a@ + b@ + c@,
{
    let mut m = crate::text::chars_of(a);
    crate::text::append_str(&mut m, b);
    crate::text::append_str(&mut m, c);
    crate::text::string_from(m.as_slice())
}

fn new_entries() -> (r: Vec<(String, JsonValue)>)
    ensures
        r@ == Seq::<(String, JsonValue)>::empty(),
        entries_view(r@) == Seq::<(Seq<char>, JsonView)>::empty(),
{
    let r: Vec<(String, JsonValue)> = Vec::new();
    proof {
        assert(entries_view(r@) =~= seq![]);
    }
    r
}

fn new_items() -> (r: Vec<JsonValue>)
    ensures
        r@ == Seq::<JsonValue>::empty(),
        items_view(r@) == Seq::<JsonView>::empty(),
{
    let r: Vec<JsonValue> = Vec::new();
    proof {
        assert(items_view(r@) =~= seq![]);
    }
    r
}

fn capabilities() -> (r: JsonValue)
    ensures
        json_view(r) == capabilities_view(),
{
    let mut e = new_entries();
    put(&mut e, "supportsConfigurationDoneRequest", JsonValue::Bool(true));
    put(&mut e, "supportsFunctionBreakpoints", JsonValue::Bool(true));
    put(&mut e, "supportsConditionalBreakpoints", JsonValue::Bool(true));
    put(&mut e, "supportsHitConditionalBreakpoints", JsonValue::Bool(true));
    put(&mut e, "supportsEvaluateForHovers", JsonValue::Bool(true));
    put(&mut e, "supportsSetVariable", JsonValue::Bool(true));
    put(&mut e, "supportsRestartRequest", JsonValue::Bool(true));
    put(&mut e, "supportsDataBreakpoints", JsonValue::Bool(true));
    put(&mut e, "supportsReadMemoryRequest", JsonValue::Bool(true));
    put(&mut e, "supportsDisassembleRequest", JsonValue::Bool(true));
    put(&mut e, "supportsTerminateRequest", JsonValue::Bool(true));
    proof {
        assert(capabilities_view() matches JsonView::Object(v) && entries_view(e@) =~= v);
    }
    object(e)
}

impl MockState {
    fn do_initialize(&mut self, events: &mut Vec<JsonValue>) -> (r: (bool, JsonValue))
        ensures
            performs(old(self)@, final(self)@, old(events)@, final(events)@, r, on_initialize(old(self)@)),
    {
        self.initialized = true;
        proof {
            assert(items_view(events@) =~= items_view(events@) + events_view(old(self)@.seq, seq![]));
        }
        (true, capabilities())
    }

    fn do_launch(&mut self, args: &JsonValue, events: &mut Vec<JsonValue>) -> (r: (bool, JsonValue))
        ensures
            performs(old(self)@, final(self)@, old(events)@, final(events)@, r, on_launch(old(self)@, *args)),
    {
        self.launched = true;
        self.program = str_value(args, "program");
        self.stop_on_entry = match crate::json::get_bool(args, "stopOnEntry") {
            Some(b) => b,
            None => false,
        };
        if self.stop_on_entry {
            self.stopped = true;
        }
        proof {
            assert(items_view(events@) =~= items_view(events@) + events_view(old(self)@.seq, seq![]));
        }
        (true, JsonValue::Null)
    }

    fn do_attach(&mut self, events: &mut Vec<JsonValue>) -> (r: (bool, JsonValue))
        ensures
            performs(old(self)@, final(self)@, old(events)@, final(events)@, r, on_attach(old(self)@)),
    {
        self.launched = true;
        self.stopped = true;
        proof {
            assert(items_view(events@) =~= items_view(events@) + events_view(old(self)@.seq, seq![]));
        }
        (true, JsonValue::Null)
    }
}

impl MockState {
    fn do_configuration_done(&mut self, events: &mut Vec<JsonValue>) -> (r: (bool, JsonValue))
        requires
            old(self).seq + 2 <= i64::MAX,
        ensures
            performs(old(self)@, final(self)@, old(events)@, final(events)@, r, on_configuration_done(old(self)@)),
    {
        let s = self.next_seq();
        let e = initialized_event(s);
        push_item(events, e);
        let ghost mid = events@;
        if self.stop_on_entry {
            self.emit_stopped(events, "entry", false);
            proof {
                let evs = seq![MockEvent::Initialized, MockEvent::Stopped { reason: "entry"@, hit: false }];
                assert(events_view(old(self)@.seq, evs) =~= seq![event_view(old(self)@.seq, evs[0])]
                    + events_view(old(self)@.seq + 1, seq![evs[1]]));
                assert(items_view(events@) =~= items_view(old(events)@) + events_view(old(self)@.seq, evs));
            }
        } else {
            proof {
                let evs = seq![MockEvent::Initialized];
                assert(items_view(events@) =~= items_view(old(events)@) + events_view(old(self)@.seq, evs));
            }
        }
        (true, JsonValue::Null)
    }

    fn do_continue(&mut self, events: &mut Vec<JsonValue>) -> (r: (bool, JsonValue))
        requires
            old(self).seq < i64::MAX,
            old(self).current_line < u32::MAX,
        ensures
            performs(old(self)@, final(self)@, old(events)@, final(events)@, r, on_continue(old(self)@)),
    {
        self.stopped = false;
        self.current_line = self.current_line + 1;
        self.stopped = true;
        self.emit_stopped(events, "breakpoint", true);
        let mut e = new_entries();
        put(&mut e, "allThreadsContinued", JsonValue::Bool(true));
        proof {
            assert(entries_view(e@) =~= seq![("allThreadsContinued"@, JsonView::Bool(true))]);
        }
        (true, object(e))
    }

    fn do_step(&mut self, events: &mut Vec<JsonValue>) -> (r: (bool, JsonValue))
        requires
            old(self).seq < i64::MAX,
            old(self).current_line < u32::MAX,
        ensures
            performs(old(self)@, final(self)@, old(events)@, final(events)@, r, on_step(old(self)@)),
    {
        self.stopped = false;
        self.current_line = self.current_line + 1;
        self.stopped = true;
        self.emit_stopped(events, "step", false);
        (true, JsonValue::Null)
    }

    fn do_pause(&mut self, events: &mut Vec<JsonValue>) -> (r: (bool, JsonValue))
        ensures
            performs(old(self)@, final(self)@, old(events)@, final(events)@, r, on_pause(old(self)@)),
    {
        self.stopped = true;
        proof {
            assert(items_view(events@) =~= items_view(events@) + events_view(old(self)@.seq, seq![]));
        }
        (true, JsonValue::Null)
    }

    fn do_threads(&self, events: &Vec<JsonValue>) -> (r: (bool, JsonValue))
        ensures
            performs(self@, self@, events@, events@, r, on_threads(self@)),
    {
        let mut t = new_entries();
        put(&mut t, "id", num(1));
        put(&mut t, "name", text("main"));
        let mut ts = new_items();
        push_item(&mut ts, object(t));
        let mut e = new_entries();
        put(&mut e, "threads", array(ts));
        proof {
            assert(items_view(events@) =~= items_view(events@) + events_view(self@.seq, seq![]));
            let tv = JsonView::Object(seq![("id"@, vnum(1)), ("name"@, vstr("main"@))]);
            assert(entries_view(t@) =~= seq![("id"@, vnum(1)), ("name"@, vstr("main"@))]);
            assert(items_view(ts@) =~= seq![tv]);
            assert(entries_view(e@) =~= seq![("threads"@, JsonView::Array(seq![tv]))]);
        }
        (true, object(e))
    }

    fn do_scopes(&self, events: &Vec<JsonValue>) -> (r: (bool, JsonValue))
        ensures
            performs(self@, self@, events@, events@, r, on_scopes(self@)),
    {
        let mut a = new_entries();
        put(&mut a, "name", text("Locals"));
        put(&mut a, "variablesReference", num(1000));
        put(&mut a, "expensive", JsonValue::Bool(false));
        let mut b = new_entries();
        put(&mut b, "name", text("Globals"));
        put(&mut b, "variablesReference", num(2000));
        put(&mut b, "expensive", JsonValue::Bool(true));
        let ghost av = seq![
            ("name"@, vstr("Locals"@)),
            ("variablesReference"@, vnum(1000)),
            ("expensive"@, JsonView::Bool(false)),
        ];
        let ghost bv = seq![
            ("name"@, vstr("Globals"@)),
            ("variablesReference"@, vnum(2000)),
            ("expensive"@, JsonView::Bool(true)),
        ];
        proof {
            assert(entries_view(a@) =~= av);
            assert(entries_view(b@) =~= bv);
        }
        let mut ss = new_items();
        push_item(&mut ss, object(a));
        push_item(&mut ss, object(b));
        let mut e = new_entries();
        put(&mut e, "scopes", array(ss));
        proof {
            assert(items_view(events@) =~= items_view(events@) + events_view(self@.seq, seq![]));
            assert(items_view(ss@) =~= seq![JsonView::Object(av), JsonView::Object(bv)]);
            assert(entries_view(e@) =~= seq![
                ("scopes"@, JsonView::Array(seq![JsonView::Object(av), JsonView::Object(bv)])),
            ]);
        }
        (true, object(e))
    }

    fn do_stack_trace(&self, events: &Vec<JsonValue>) -> (r: (bool, JsonValue))
        ensures
            performs(self@, self@, events@, events@, r, on_stack_trace(self@)),
    {
        let mut src = new_entries();
        put(&mut src, "name", text_of(self.current_file.clone()));
        put(&mut src, "path", text_of(text_pair("/test/", self.current_file.as_str())));
        let ghost srcv = seq![
            ("name"@, vstr(self@.current_file)),
            ("path"@, vstr("/test/"@ + self@.current_file)),
        ];
        proof {
            assert(entries_view(src@) =~= srcv);
        }
        let mut f1 = new_entries();
        put(&mut f1, "id", num(1));
        put(&mut f1, "name", text("main"));
        put(&mut f1, "source", object(src));
        put(&mut f1, "line", num(self.current_line as i64));
        put(&mut f1, "column", num(1));
        let ghost f1v = seq![
            ("id"@, vnum(1)),
            ("name"@, vstr("main"@)),
            ("source"@, JsonView::Object(srcv)),
            ("line"@, vnum(self@.current_line as int)),
            ("column"@, vnum(1)),
        ];
        proof {
            assert(entries_view(f1@) =~= f1v);
        }
        let mut f2 = new_entries();
        put(&mut f2, "id", num(2));
        put(&mut f2, "name", text("__libc_start_main"));
        put(&mut f2, "line", num(0));
        put(&mut f2, "column", num(0));
        let ghost f2v = seq![
            ("id"@, vnum(2)),
            ("name"@, vstr("__libc_start_main"@)),
            ("line"@, vnum(0)),
            ("column"@, vnum(0)),
        ];
        proof {
            assert(entries_view(f2@) =~= f2v);
        }
        let mut fs = new_items();
        push_item(&mut fs, object(f1));
        push_item(&mut fs, object(f2));
        let mut e = new_entries();
        put(&mut e, "stackFrames", array(fs));
        put(&mut e, "totalFrames", num(2));
        proof {
            assert(items_view(events@) =~= items_view(events@) + events_view(self@.seq, seq![]));
            assert(items_view(fs@) =~= seq![JsonView::Object(f1v), JsonView::Object(f2v)]);
            assert(entries_view(e@) =~= seq![
                ("stackFrames"@, JsonView::Array(seq![JsonView::Object(f1v), JsonView::Object(f2v)])),
                ("totalFrames"@, vnum(2)),
            ]);
        }
        (true, object(e))
    }

    fn do_restart(&mut self, events: &mut Vec<JsonValue>) -> (r: (bool, JsonValue))
        requires
            old(self).seq < i64::MAX,
        ensures
            performs(old(self)@, final(self)@, old(events)@, final(events)@, r, on_restart(old(self)@)),
    {
        self.current_line = 1;
        self.stopped = true;
        self.emit_stopped(events, "entry", false);
        (true, JsonValue::Null)
    }

    fn do_disconnect(&mut self, events: &mut Vec<JsonValue>) -> (r: (bool, JsonValue))
        ensures
            performs(old(self)@, final(self)@, old(events)@, final(events)@, r, on_disconnect(old(self)@)),
    {
        self.launched = false;
        self.stopped = false;
        proof {
            assert(items_view(events@) =~= items_view(events@) + events_view(old(self)@.seq, seq![]));
        }
        (true, JsonValue::Null)
    }

    fn do_nothing(&self, events: &Vec<JsonValue>) -> (r: (bool, JsonValue))
        ensures
            performs(self@, self@, events@, events@, r, plain(self@, JsonView::Null)),
    {
        proof {
            assert(items_view(events@) =~= items_view(events@) + events_view(self@.seq, seq![]));
        }
        (true, JsonValue::Null)
    }

    fn do_unknown(&self, command: &str, events: &Vec<JsonValue>) -> (r: (bool, JsonValue))
        ensures
            performs(self@, self@, events@, events@, r, on_unknown(self@, command@)),
    {
        let mut e = new_entries();
        put(&mut e, "message", text_of(text_pair("Unknown command: ", command)));
        proof {
            assert(items_view(events@) =~= items_view(events@) + events_view(self@.seq, seq![]));
            assert(entries_view(e@) =~= seq![("message"@, vstr("Unknown command: "@ + command@))]);
        }
        (false, object(e))
    }
}

/// The line a breakpoint asks for: its `line` member cut to 32 bits, or 1.
pub open spec fn line_of(bp: JsonValue) -> u32 {
    match u64_at(bp, "line"@) {
        Some(n) => n as u32,
        None => 1,
    }
}

/// The path of the `source` member, or `unknown`.
pub open spec fn source_path(args: JsonValue) -> Seq<char> {
    match member(args, "source"@) {
        Some(src) => str_or(src, "path"@, "unknown"@),
        None => "unknown"@,
    }
}

/// `i` is the first index whose key is `key`.
pub open spec fn first_key(s: Seq<(Seq<char>, Seq<u32>)>, key: Seq<char>, i: int) -> bool {
    &&& 0 <= i < s.len()
    &&& s[i].0 == key
    &&& forall|j: int| 0 <= j < i ==> s[j].0 != key
}

/// The lines of `key` replaced by `lines`, or added at the end when `key`
/// has none yet.
pub open spec fn store_lines(s: Seq<(Seq<char>, Seq<u32>)>, key: Seq<char>, lines: Seq<u32>) -> Seq<
    (Seq<char>, Seq<u32>),
> {
    if exists|i: int| first_key(s, key, i) {
        s.update(choose|i: int| first_key(s, key, i), (key, lines))
    } else {
        s.push((key, lines))
    }
}

/// The breakpoint answered for the `i`-th requested one.
pub open spec fn line_breakpoint_view(i: int, line: u32, source: Seq<char>) -> JsonView {
    JsonView::Object(
        seq![
            ("id"@, vnum(i + 1)),
            ("verified"@, JsonView::Bool(true)),
            ("line"@, vnum(line as int)),
            ("source"@, JsonView::Object(seq![("path"@, vstr(source))])),
        ],
    )
}

/// `setBreakpoints`: every requested line is verified; the lines are kept
/// for the source path.
pub open spec fn on_set_breakpoints(st: MockView, args: JsonValue) -> MockOutcome {
    let source = source_path(args);
    let bps = items_at(args, "breakpoints"@);
    let lines = Seq::new(bps.len(), |i: int| line_of(bps[i]));
    plain(
        MockView { breakpoints: store_lines(st.breakpoints, source, lines), ..st },
        JsonView::Object(
            seq![
                (
                    "breakpoints"@,
                    JsonView::Array(
                        Seq::new(bps.len(), |i: int| line_breakpoint_view(i, lines[i], source)),
                    ),
                ),
            ],
        ),
    )
}

/// The breakpoint answered for the `i`-th requested function.
pub open spec fn function_breakpoint_view(i: int, bp: JsonValue) -> JsonView {
    JsonView::Object(
        seq![
            ("id"@, vnum(100 + i)),
            ("verified"@, JsonView::Bool(true)),
            ("message"@, vstr("Breakpoint at function "@ + str_or(bp, "name"@, "unknown"@))),
        ],
    )
}

/// `setFunctionBreakpoints`: every function breakpoint is verified.
pub open spec fn on_set_function_breakpoints(st: MockView, args: JsonValue) -> MockOutcome {
    let bps = items_at(args, "breakpoints"@);
    plain(
        st,
        JsonView::Object(
            seq![
                (
                    "breakpoints"@,
                    JsonView::Array(Seq::new(bps.len(), |i: int| function_breakpoint_view(i, bps[i]))),
                ),
            ],
        ),
    )
}

/// The data identifier of a watchpoint request, or empty.
pub open spec fn data_id_of(bp: JsonValue) -> Seq<char> {
    str_or(bp, "dataId"@, ""@)
}

/// The access type of a watchpoint request, or `write`.
pub open spec fn access_type_of(bp: JsonValue) -> Seq<char> {
    str_or(bp, "accessType"@, "write"@)
}

/// The watchpoint answered for the `i`-th request.
pub open spec fn data_breakpoint_view(i: int, bp: JsonValue) -> JsonView {
    JsonView::Object(
        seq![
            ("id"@, vnum(200 + i)),
            ("verified"@, JsonView::Bool(true)),
            ("message"@, vstr("Watchpoint on "@ + data_id_of(bp))),
        ],
    )
}

/// `setDataBreakpoints`: the watchpoints replace the earlier ones, and each
/// is verified.
pub open spec fn on_set_data_breakpoints(st: MockView, args: JsonValue) -> MockOutcome {
    let bps = items_at(args, "breakpoints"@);
    plain(
        MockView {
            data_breakpoints: Seq::new(bps.len(), |i: int| (data_id_of(bps[i]), access_type_of(bps[i]))),
            ..st
        },
        JsonView::Object(
            seq![
                (
                    "breakpoints"@,
                    JsonView::Array(Seq::new(bps.len(), |i: int| data_breakpoint_view(i, bps[i]))),
                ),
            ],
        ),
    )
}

/// `dataBreakpointInfo`: a watchable address for the named variable.
pub open spec fn on_data_breakpoint_info(st: MockView, args: JsonValue) -> MockOutcome {
    let name = str_or(args, "name"@, "unknown"@);
    plain(
        st,
        JsonView::Object(
            seq![
                ("dataId"@, vstr("&"@ + name)),
                ("description"@, vstr("Address of variable '"@ + name + "'"@)),
                (
                    "accessTypes"@,
                    JsonView::Array(seq![vstr("read"@), vstr("write"@), vstr("readWrite"@)]),
                ),
                ("canPersist"@, JsonView::Bool(true)),
            ],
        ),
    )
}

impl MockState {
    /// Keeps `lines` as the breakpoint lines of `key`.
    fn store_breakpoint_lines(&mut self, key: String, lines: Vec<u32>)
        ensures
            final(self)@ == (MockView {
                breakpoints: store_lines(old(self)@.breakpoints, key@, lines@),
                ..old(self)@
            }),
    {
        let ghost lv = old(self)@.breakpoints;
        let kc = crate::text::chars_of(key.as_str());
        let mut i: usize = 0;
        while i < self.breakpoints.len()
            invariant
                i <= self.breakpoints@.len(),
                self@ == old(self)@,
                lv == lines_view(self.breakpoints@),
                kc@ == key@,
                forall|j: int| 0 <= j < i ==> lv[j].0 != key@,
            decreases self.breakpoints@.len() - i,
        {
            let ic = crate::text::chars_of(self.breakpoints[i].0.as_str());
            if crate::text::seq_eq(ic.as_slice(), kc.as_slice()) {
                proof {
                    assert(first_key(lv, key@, i as int));
                    let c = choose|c: int| first_key(lv, key@, c);
                    assert(first_key(lv, key@, c));
                    if c < i {
                        assert(lv[c].0 != key@);
                    }
                    if c > i {
                        assert(lv[i as int].0 != key@);
                    }
                    assert(c == i);
                }
                self.breakpoints.set(i, (key, lines));
                proof {
                    assert(lines_view(self.breakpoints@) =~= lv.update(i as int, (key@, lines@)));
                }
                return;
            }
            i = i + 1;
        }
        proof {
            assert(!exists|c: int| first_key(lv, key@, c)) by {
                if exists|c: int| first_key(lv, key@, c) {
                    let c = choose|c: int| first_key(lv, key@, c);
                    assert(lv[c].0 == key@);
                }
            }
        }
        self.breakpoints.push((key, lines));
        proof {
            assert(lines_view(self.breakpoints@) =~= lv.push((key@, lines@)));
        }
    }
}

fn line_breakpoint(i: usize, line: u32, source: &str) -> (r: JsonValue)
    requires
        i < i64::MAX,
    ensures
        json_view(r) == line_breakpoint_view(i as int, line, source@),
{
    let mut src = new_entries();
    put(&mut src, "path", text(source));
    let mut e = new_entries();
    put(&mut e, "id", num(i as i64 + 1));
    put(&mut e, "verified", JsonValue::Bool(true));
    put(&mut e, "line", num(line as i64));
    put(&mut e, "source", object(src));
    proof {
        assert(entries_view(src@) =~= seq![("path"@, vstr(source@))]);
        assert(entries_view(e@) =~= seq![
            ("id"@, vnum(i + 1)),
            ("verified"@, JsonView::Bool(true)),
            ("line"@, vnum(line as int)),
            ("source"@, JsonView::Object(seq![("path"@, vstr(source@))])),
        ]);
    }
    object(e)
}

fn line_value(bp: &JsonValue) -> (r: u32)
    ensures
        r == line_of(*bp),
{
    match u64_member(bp, "line") {
        Some(n) => n as u32,
        None => 1,
    }
}

fn source_path_value(args: &JsonValue) -> (r: String)
    ensures
        r@ == source_path(*args),
{
    match crate::json::member_ref(args, "source") {
        Some(src) => str_value_or(src, "path", "unknown"),
        None => String::from_str("unknown"),
    }
}

impl MockState {
    fn do_set_breakpoints(&mut self, args: &JsonValue, events: &Vec<JsonValue>) -> (r: (bool, JsonValue))
        requires
            items_at(*args, "breakpoints"@).len() < i64::MAX,
        ensures
            performs(old(self)@, final(self)@, events@, events@, r, on_set_breakpoints(old(self)@, *args)),
    {
        let source = source_path_value(args);
        let bps = items_member(args, "breakpoints");
        let ghost lines_spec = Seq::new(bps@.len(), |k: int| line_of(bps@[k]));
        let mut lines: Vec<u32> = Vec::new();
        let mut out = new_items();
        let mut i: usize = 0;
        while i < bps.len()
            invariant
                i <= bps@.len(),
                bps@.len() < i64::MAX,
                lines_spec == Seq::new(bps@.len(), |k: int| line_of(bps@[k])),
                lines@ == lines_spec.take(i as int),
                items_view(out@) == Seq::new(
                    i as nat,
                    |k: int| line_breakpoint_view(k, lines_spec[k], source@),
                ),
            decreases bps@.len() - i,
        {
            let line = line_value(&bps[i]);
            lines.push(line);
            push_item(&mut out, line_breakpoint(i, line, source.as_str()));
            proof {
                assert(lines@ =~= lines_spec.take(i + 1));
                assert(items_view(out@) =~= Seq::new(
                    (i + 1) as nat,
                    |k: int| line_breakpoint_view(k, lines_spec[k], source@),
                ));
            }
            i = i + 1;
        }
        proof {
            assert(lines@ =~= lines_spec);
        }
        let mut e = new_entries();
        put(&mut e, "breakpoints", array(out));
        let ghost src = source@;
        self.store_breakpoint_lines(source, lines);
        proof {
            assert(items_view(events@) =~= items_view(events@) + events_view(old(self)@.seq, seq![]));
            assert(entries_view(e@) =~= seq![
                (
                    "breakpoints"@,
                    JsonView::Array(
                        Seq::new(bps@.len(), |k: int| line_breakpoint_view(k, lines_spec[k], src)),
                    ),
                ),
            ]);
        }
        (true, object(e))
    }
}

fn function_breakpoint(i: usize, bp: &JsonValue) -> (r: JsonValue)
    requires
        i < i64::MAX - 200,
    ensures
        json_view(r) == function_breakpoint_view(i as int, *bp),
{
    let name = str_value_or(bp, "name", "unknown");
    let mut e = new_entries();
    put(&mut e, "id", num(100 + i as i64));
    put(&mut e, "verified", JsonValue::Bool(true));
    put(&mut e, "message", text_of(text_pair("Breakpoint at function ", name.as_str())));
    proof {
        assert(entries_view(e@) =~= seq![
            ("id"@, vnum(100 + i)),
            ("verified"@, JsonView::Bool(true)),
            ("message"@, vstr("Breakpoint at function "@ + str_or(*bp, "name"@, "unknown"@))),
        ]);
    }
    object(e)
}

fn data_breakpoint(i: usize, data_id: &str) -> (r: JsonValue)
    requires
        i < i64::MAX - 200,
    ensures
        json_view(r) == JsonView::Object(
            seq![
                ("id"@, vnum(200 + i)),
                ("verified"@, JsonView::Bool(true)),
                ("message"@, vstr("Watchpoint on "@ + data_id@)),
            ],
        ),
{
    let mut e = new_entries();
    put(&mut e, "id", num(200 + i as i64));
    put(&mut e, "verified", JsonValue::Bool(true));
    put(&mut e, "message", text_of(text_pair("Watchpoint on ", data_id)));
    proof {
        assert(entries_view(e@) =~= seq![
            ("id"@, vnum(200 + i)),
            ("verified"@, JsonView::Bool(true)),
            ("message"@, vstr("Watchpoint on "@ + data_id@)),
        ]);
    }
    object(e)
}

impl MockState {
    fn do_set_function_breakpoints(&self, args: &JsonValue, events: &Vec<JsonValue>) -> (r: (
        bool,
        JsonValue,
    ))
        requires
            items_at(*args, "breakpoints"@).len() < i64::MAX - 200,
        ensures
            performs(self@, self@, events@, events@, r, on_set_function_breakpoints(self@, *args)),
    {
        let bps = items_member(args, "breakpoints");
        let mut out = new_items();
        let mut i: usize = 0;
        while i < bps.len()
            invariant
                i <= bps@.len(),
                bps@.len() < i64::MAX - 200,
                items_view(out@) == Seq::new(i as nat, |k: int| function_breakpoint_view(k, bps@[k])),
            decreases bps@.len() - i,
        {
            push_item(&mut out, function_breakpoint(i, &bps[i]));
            proof {
                assert(items_view(out@) =~= Seq::new(
                    (i + 1) as nat,
                    |k: int| function_breakpoint_view(k, bps@[k]),
                ));
            }
            i = i + 1;
        }
        let mut e = new_entries();
        put(&mut e, "breakpoints", array(out));
        proof {
            assert(items_view(events@) =~= items_view(events@) + events_view(self@.seq, seq![]));
            assert(entries_view(e@) =~= seq![
                (
                    "breakpoints"@,
                    JsonView::Array(
                        Seq::new(bps@.len(), |k: int| function_breakpoint_view(k, bps@[k])),
                    ),
                ),
            ]);
        }
        (true, object(e))
    }

    fn do_set_data_breakpoints(&mut self, args: &JsonValue, events: &Vec<JsonValue>) -> (r: (
        bool,
        JsonValue,
    ))
        requires
            items_at(*args, "breakpoints"@).len() < i64::MAX - 200,
        ensures
            performs(old(self)@, final(self)@, events@, events@, r, on_set_data_breakpoints(old(self)@, *args)),
    {
        let bps = items_member(args, "breakpoints");
        self.data_breakpoints.clear();
        let mut out = new_items();
        let mut i: usize = 0;
        while i < bps.len()
            invariant
                i <= bps@.len(),
                bps@.len() < i64::MAX - 200,
                self@ == (MockView { data_breakpoints: self@.data_breakpoints, ..old(self)@ }),
                self@.data_breakpoints == Seq::new(
                    i as nat,
                    |k: int| (data_id_of(bps@[k]), access_type_of(bps@[k])),
                ),
                items_view(out@) == Seq::new(i as nat, |k: int| data_breakpoint_view(k, bps@[k])),
            decreases bps@.len() - i,
        {
            let data_id = str_value_or(&bps[i], "dataId", "");
            let access = str_value_or(&bps[i], "accessType", "write");
            push_item(&mut out, data_breakpoint(i, data_id.as_str()));
            let ghost before = self.data_breakpoints@;
            let ghost pair = (data_id@, access@);
            self.data_breakpoints.push((data_id, access));
            proof {
                assert(pairs_view(self.data_breakpoints@) =~= pairs_view(before).push(pair));
                assert(self@.data_breakpoints =~= Seq::new(
                    (i + 1) as nat,
                    |k: int| (data_id_of(bps@[k]), access_type_of(bps@[k])),
                ));
                assert(items_view(out@) =~= Seq::new(
                    (i + 1) as nat,
                    |k: int| data_breakpoint_view(k, bps@[k]),
                ));
            }
            i = i + 1;
        }
        let mut e = new_entries();
        put(&mut e, "breakpoints", array(out));
        proof {
            assert(items_view(events@) =~= items_view(events@) + events_view(old(self)@.seq, seq![]));
            assert(entries_view(e@) =~= seq![
                (
                    "breakpoints"@,
                    JsonView::Array(Seq::new(bps@.len(), |k: int| data_breakpoint_view(k, bps@[k]))),
                ),
            ]);
        }
        (true, object(e))
    }

    fn do_data_breakpoint_info(&self, args: &JsonValue, events: &Vec<JsonValue>) -> (r: (
        bool,
        JsonValue,
    ))
        ensures
            performs(self@, self@, events@, events@, r, on_data_breakpoint_info(self@, *args)),
    {
        let name = str_value_or(args, "name", "unknown");
        let mut kinds = new_items();
        push_item(&mut kinds, text("read"));
        push_item(&mut kinds, text("write"));
        push_item(&mut kinds, text("readWrite"));
        let mut e = new_entries();
        put(&mut e, "dataId", text_of(text_pair("&", name.as_str())));
        put(&mut e, "description", text_of(text_triple("Address of variable '", name.as_str(), "'")));
        put(&mut e, "accessTypes", array(kinds));
        put(&mut e, "canPersist", JsonValue::Bool(true));
        proof {
            assert(items_view(events@) =~= items_view(events@) + events_view(self@.seq, seq![]));
            let kv = seq![vstr("read"@), vstr("write"@), vstr("readWrite"@)];
            assert(items_view(kinds@) =~= kv);
            assert(entries_view(e@) =~= seq![
                ("dataId"@, vstr("&"@ + name@)),
                ("description"@, vstr("Address of variable '"@ + name@ + "'"@)),
                ("accessTypes"@, JsonView::Array(kv)),
                ("canPersist"@, JsonView::Bool(true)),
            ]);
        }
        (true, object(e))
    }
}

/// A variable as the `variables` reply lists it.
pub open spec fn variable_view(v: (Seq<char>, Seq<char>, Seq<char>)) -> JsonView {
    JsonView::Object(
        seq![
            ("name"@, vstr(v.0)),
            ("value"@, vstr(v.1)),
            ("type"@, vstr(v.2)),
            ("variablesReference"@, vnum(0)),
        ],
    )
}

/// `variables`: every variable under reference 1000 (the locals), none
/// under any other.
pub open spec fn on_variables(st: MockView, args: JsonValue) -> MockOutcome {
    let r = match i64_at(args, "variablesReference"@) {
        Some(n) => n as int,
        None => 0,
    };
    let vars = if r == 1000 {
        Seq::new(st.variables.len(), |i: int| variable_view(st.variables[i]))
    } else {
        seq![]
    };
    plain(st, JsonView::Object(seq![("variables"@, JsonView::Array(vars))]))
}

/// `i` is the first index of a variable named `name`.
pub open spec fn first_var(vs: Seq<(Seq<char>, Seq<char>, Seq<char>)>, name: Seq<char>, i: int) -> bool {
    &&& 0 <= i < vs.len()
    &&& vs[i].0 == name
    &&& forall|j: int| 0 <= j < i ==> vs[j].0 != name
}

/// The index of the variable named `name`, if there is one.
pub open spec fn var_index(vs: Seq<(Seq<char>, Seq<char>, Seq<char>)>, name: Seq<char>) -> Option<int> {
    if exists|i: int| first_var(vs, name, i) {
        Some(choose|i: int| first_var(vs, name, i))
    } else {
        None
    }
}

/// `evaluate`: a variable's value and type when the expression names one;
/// otherwise a made-up `int` result that quotes the expression.
pub open spec fn on_evaluate(st: MockView, args: JsonValue) -> MockOutcome {
    let expr = str_or(args, "expression"@, ""@);
    plain(
        st,
        match var_index(st.variables, expr) {
            Some(i) => JsonView::Object(
                seq![
                    ("result"@, vstr(st.variables[i].1)),
                    ("type"@, vstr(st.variables[i].2)),
                    ("variablesReference"@, vnum(0)),
                ],
            ),
            None => JsonView::Object(
                seq![
                    ("result"@, vstr("(eval result: "@ + expr + ")"@)),
                    ("type"@, vstr("int"@)),
                    ("variablesReference"@, vnum(0)),
                ],
            ),
        },
    )
}

/// `setVariable`: a known variable takes the new value (its type stays);
/// an unknown one fails with a message.
pub open spec fn on_set_variable(st: MockView, args: JsonValue) -> MockOutcome {
    let name = str_or(args, "name"@, ""@);
    let value = str_or(args, "value"@, ""@);
    match var_index(st.variables, name) {
        Some(i) => MockOutcome {
            success: true,
            body: JsonView::Object(
                seq![
                    ("value"@, vstr(value)),
                    ("type"@, vstr(st.variables[i].2)),
                    ("variablesReference"@, vnum(0)),
                ],
            ),
            events: seq![],
            state: MockView {
                variables: st.variables.update(i, (st.variables[i].0, value, st.variables[i].2)),
                ..st
            },
        },
        None => MockOutcome {
            success: false,
            body: JsonView::Object(
                seq![("message"@, vstr("Variable '"@ + name + "' not found"@))],
            ),
            events: seq![],
            state: st,
        },
    }
}

/// The character of a six-bit value in the standard base64 alphabet:
/// `A`-`Z`, `a`-`z`, `0`-`9`, `+`, `/`.
pub open spec fn base64_digit(v: int) -> char {
    if v < 26 {
        (65 + v) as char
    } else if v < 52 {
        (97 + v - 26) as char
    } else if v < 62 {
        (48 + v - 52) as char
    } else if v == 62 {
        '+'
    } else {
        '/'
    }
}

/// Standard base64 with padding: each three bytes become four characters
/// of six bits each, most significant first; one or two bytes left over
/// are written with their bits filled up with zeros and `=` for each
/// missing character.
pub open spec fn base64_standard_encode(bytes: Seq<u8>) -> Seq<char>
    decreases bytes.len(),
{
    if bytes.len() == 0 {
        seq![]
    } else if bytes.len() == 1 {
        let a = bytes[0] as int;
        seq![base64_digit(a / 4), base64_digit((a % 4) * 16), '=', '=']
    } else if bytes.len() == 2 {
        let a = bytes[0] as int;
        let b = bytes[1] as int;
        seq![base64_digit(a / 4), base64_digit((a % 4) * 16 + b / 16), base64_digit((b % 16) * 4), '=']
    } else {
        let a = bytes[0] as int;
        let b = bytes[1] as int;
        let c = bytes[2] as int;
        seq![
            base64_digit(a / 4),
            base64_digit((a % 4) * 16 + b / 16),
            base64_digit((b % 16) * 4 + c / 64),
            base64_digit(c % 64),
        ] + base64_standard_encode(bytes.skip(3))
    }
}

/// Encodes bytes with the `base64` crate's `STANDARD` engine
/// (`Engine::encode`): standard base64 with padding, as
/// `base64_standard_encode` writes it out. The crate panics when the
/// encoded length overflows `usize`, which the precondition rules out.
#[verifier::external_body]
fn encode_base64(bytes: &[u8]) -> (r: String)
    requires
        bytes@.len() / 3 * 4 + 4 <= usize::MAX,
    ensures
        r@ == base64_standard_encode(bytes@),
{
    base64::Engine::encode(&base64::engine::general_purpose::STANDARD, bytes)
}

/// `n` zero bytes.
pub open spec fn zeros(n: nat) -> Seq<u8> {
    Seq::new(n, |i: int| 0u8)
}

/// The number of bytes `readMemory` asks for, 64 by default.
pub open spec fn memory_count(args: JsonValue) -> u64 {
    match u64_at(args, "count"@) {
        Some(c) => c,
        None => 64,
    }
}

/// The `readMemory` reply: the address asked for and the data, all of it
/// readable.
pub open spec fn read_memory_view(address: Seq<char>, data: Seq<char>) -> JsonView {
    JsonView::Object(
        seq![
            ("address"@, vstr(address)),
            ("data"@, vstr(data)),
            ("unreadableBytes"@, vnum(0)),
        ],
    )
}

/// `readMemory`: as many zero bytes as asked for, in base64, at the given
/// address (`0x0` by default).
pub open spec fn on_read_memory(st: MockView, args: JsonValue) -> MockOutcome {
    plain(
        st,
        read_memory_view(
            str_or(args, "memoryReference"@, "0x0"@),
            base64_standard_encode(zeros(memory_count(args) as nat)),
        ),
    )
}

/// The body of a `readMemory` reply for `address` and the encoded `data`.
pub fn read_memory_body(address: String, data: String) -> (r: JsonValue)
    ensures
        json_view(r) == read_memory_view(address@, data@),
{
    let mut e = new_entries();
    put(&mut e, "address", text_of(address));
    put(&mut e, "data", text_of(data));
    put(&mut e, "unreadableBytes", num(0));
    proof {
        assert(entries_view(e@) =~= seq![
            ("address"@, vstr(address@)),
            ("data"@, vstr(data@)),
            ("unreadableBytes"@, vnum(0)),
        ]);
    }
    object(e)
}

/// The `i`-th disassembled instruction: at `0x1000 + 4 i`, a `mov` into
/// register `i % 8`.
pub open spec fn instruction_view(i: nat) -> JsonView {
    JsonView::Object(
        seq![
            ("address"@, vstr("0x"@ + crate::cli::format::hex_of(0x1000 + 4 * i))),
            (
                "instruction"@,
                vstr(
                    "mov r"@ + crate::number::decimal_of(i % 8) + ", #"@ + crate::number::decimal_of(
                        i,
                    ),
                ),
            ),
            ("instructionBytes"@, vstr("00 00 00 00"@)),
        ],
    )
}

/// The number of instructions `disassemble` asks for, 10 by default.
pub open spec fn instruction_count(args: JsonValue) -> u64 {
    match u64_at(args, "instructionCount"@) {
        Some(c) => c,
        None => 10,
    }
}

/// `disassemble`: as many made-up instructions as asked for.
pub open spec fn on_disassemble(st: MockView, args: JsonValue) -> MockOutcome {
    plain(
        st,
        JsonView::Object(
            seq![
                (
                    "instructions"@,
                    JsonView::Array(
                        Seq::new(instruction_count(args) as nat, |i: int| instruction_view(i as nat)),
                    ),
                ),
            ],
        ),
    )
}

fn variable_item(v: &(String, String, String)) -> (r: JsonValue)
    ensures
        json_view(r) == variable_view((v.0@, v.1@, v.2@)),
{
    let mut e = new_entries();
    put(&mut e, "name", text_of(v.0.clone()));
    put(&mut e, "value", text_of(v.1.clone()));
    put(&mut e, "type", text_of(v.2.clone()));
    put(&mut e, "variablesReference", num(0));
    proof {
        assert(entries_view(e@) =~= seq![
            ("name"@, vstr(v.0@)),
            ("value"@, vstr(v.1@)),
            ("type"@, vstr(v.2@)),
            ("variablesReference"@, vnum(0)),
        ]);
    }
    object(e)
}

fn instruction(i: u64) -> (r: JsonValue)
    requires
        0x1000 + 4 * i <= u64::MAX,
    ensures
        json_view(r) == instruction_view(i as nat),
{
    let mut a = crate::text::chars_of("0x");
    let h = crate::cli::format::hex_chars(0x1000 + 4 * i);
    crate::text::append(&mut a, h.as_slice());
    let mut m = crate::text::chars_of("mov r");
    let r8 = crate::number::decimal_chars(i % 8);
    crate::text::append(&mut m, r8.as_slice());
    crate::text::append_str(&mut m, ", #");
    let d = crate::number::decimal_chars(i);
    crate::text::append(&mut m, d.as_slice());
    let mut e = new_entries();
    put(&mut e, "address", text_of(crate::text::string_from(a.as_slice())));
    put(&mut e, "instruction", text_of(crate::text::string_from(m.as_slice())));
    put(&mut e, "instructionBytes", text("00 00 00 00"));
    proof {
        assert(entries_view(e@) =~= seq![
            ("address"@, vstr("0x"@ + crate::cli::format::hex_of(0x1000 + 4 * i as nat))),
            (
                "instruction"@,
                vstr(
                    "mov r"@ + crate::number::decimal_of((i % 8) as nat) + ", #"@
                        + crate::number::decimal_of(i as nat),
                ),
            ),
            ("instructionBytes"@, vstr("00 00 00 00"@)),
        ]);
    }
    object(e)
}

impl MockState {
    fn do_variables(&self, args: &JsonValue, events: &Vec<JsonValue>) -> (r: (bool, JsonValue))
        ensures
            performs(self@, self@, events@, events@, r, on_variables(self@, *args)),
    {
        let var_ref = match crate::json::get_i64(args, "variablesReference") {
            Some(n) => n,
            None => 0,
        };
        let mut out = new_items();
        let ghost vs = self@.variables;
        if var_ref == 1000 {
            let mut i: usize = 0;
            while i < self.variables.len()
                invariant
                    i <= self.variables@.len(),
                    vs == vars_view(self.variables@),
                    items_view(out@) == Seq::new(i as nat, |k: int| variable_view(vs[k])),
                decreases self.variables@.len() - i,
            {
                push_item(&mut out, variable_item(&self.variables[i]));
                proof {
                    assert(items_view(out@) =~= Seq::new((i + 1) as nat, |k: int| variable_view(vs[k])));
                }
                i = i + 1;
            }
        }
        let mut e = new_entries();
        put(&mut e, "variables", array(out));
        proof {
            assert(items_view(events@) =~= items_view(events@) + events_view(self@.seq, seq![]));
            if var_ref == 1000 {
                assert(entries_view(e@) =~= seq![
                    ("variables"@, JsonView::Array(Seq::new(vs.len(), |k: int| variable_view(vs[k])))),
                ]);
            } else {
                assert(entries_view(e@) =~= seq![("variables"@, JsonView::Array(seq![]))]);
            }
        }
        (true, object(e))
    }

    /// The index of the variable named `name`.
    fn find_variable(&self, name: &str) -> (r: Option<usize>)
        ensures
            match r {
                Some(i) => var_index(self@.variables, name@) == Some(i as int) && i < self.variables@.len(),
                None => var_index(self@.variables, name@) is None,
            },
    {
        let ghost vs = self@.variables;
        let nc = crate::text::chars_of(name);
        let mut i: usize = 0;
        while i < self.variables.len()
            invariant
                i <= self.variables@.len(),
                vs == vars_view(self.variables@),
                nc@ == name@,
                forall|j: int| 0 <= j < i ==> vs[j].0 != name@,
            decreases self.variables@.len() - i,
        {
            let ic = crate::text::chars_of(self.variables[i].0.as_str());
            if crate::text::seq_eq(ic.as_slice(), nc.as_slice()) {
                proof {
                    assert(first_var(vs, name@, i as int));
                    let c = choose|c: int| first_var(vs, name@, c);
                    assert(first_var(vs, name@, c));
                    if c < i {
                        assert(vs[c].0 != name@);
                    }
                    if c > i {
                        assert(vs[i as int].0 != name@);
                    }
                }
                return Some(i);
            }
            i = i + 1;
        }
        proof {
            assert(!exists|c: int| first_var(vs, name@, c)) by {
                if exists|c: int| first_var(vs, name@, c) {
                    let c = choose|c: int| first_var(vs, name@, c);
                    assert(vs[c].0 == name@);
                }
            }
        }
        None
    }

    fn do_evaluate(&self, args: &JsonValue, events: &Vec<JsonValue>) -> (r: (bool, JsonValue))
        ensures
            performs(self@, self@, events@, events@, r, on_evaluate(self@, *args)),
    {
        let expr = str_value_or(args, "expression", "");
        let mut e = new_entries();
        match self.find_variable(expr.as_str()) {
            Some(i) => {
                put(&mut e, "result", text_of(self.variables[i].1.clone()));
                put(&mut e, "type", text_of(self.variables[i].2.clone()));
                put(&mut e, "variablesReference", num(0));
                proof {
                    let v = self@.variables[i as int];
                    assert(entries_view(e@) =~= seq![
                        ("result"@, vstr(v.1)),
                        ("type"@, vstr(v.2)),
                        ("variablesReference"@, vnum(0)),
                    ]);
                }
            },
            None => {
                put(&mut e, "result", text_of(text_triple("(eval result: ", expr.as_str(), ")")));
                put(&mut e, "type", text("int"));
                put(&mut e, "variablesReference", num(0));
                proof {
                    assert(entries_view(e@) =~= seq![
                        ("result"@, vstr("(eval result: "@ + expr@ + ")"@)),
                        ("type"@, vstr("int"@)),
                        ("variablesReference"@, vnum(0)),
                    ]);
                }
            },
        }
        proof {
            assert(items_view(events@) =~= items_view(events@) + events_view(self@.seq, seq![]));
        }
        (true, object(e))
    }

    fn do_set_variable(&mut self, args: &JsonValue, events: &Vec<JsonValue>) -> (r: (bool, JsonValue))
        ensures
            performs(old(self)@, final(self)@, events@, events@, r, on_set_variable(old(self)@, *args)),
    {
        let name = str_value_or(args, "name", "");
        let value = str_value_or(args, "value", "");
        proof {
            assert(items_view(events@) =~= items_view(events@) + events_view(old(self)@.seq, seq![]));
        }
        let mut e = new_entries();
        match self.find_variable(name.as_str()) {
            Some(i) => {
                let ghost vs = old(self)@.variables;
                let ty = self.variables[i].2.clone();
                let var_name = self.variables[i].0.clone();
                put(&mut e, "value", text_of(value.clone()));
                put(&mut e, "type", text_of(ty.clone()));
                put(&mut e, "variablesReference", num(0));
                let ghost triple = (var_name@, value@, ty@);
                self.variables.set(i, (var_name, value, ty));
                proof {
                    assert(vars_view(self.variables@) =~= vs.update(i as int, triple));
                    assert(entries_view(e@) =~= seq![
                        ("value"@, vstr(triple.1)),
                        ("type"@, vstr(vs[i as int].2)),
                        ("variablesReference"@, vnum(0)),
                    ]);
                }
                (true, object(e))
            },
            None => {
                put(&mut e, "message", text_of(text_triple("Variable '", name.as_str(), "' not found")));
                proof {
                    assert(entries_view(e@) =~= seq![
                        ("message"@, vstr("Variable '"@ + name@ + "' not found"@)),
                    ]);
                }
                (false, object(e))
            },
        }
    }

    fn do_read_memory(&self, args: &JsonValue, events: &Vec<JsonValue>) -> (r: (bool, JsonValue))
        requires
            memory_count(*args) <= usize::MAX,
            memory_count(*args) / 3 * 4 + 4 <= usize::MAX,
        ensures
            performs(self@, self@, events@, events@, r, on_read_memory(self@, *args)),
    {
        let count = match u64_member(args, "count") {
            Some(c) => c,
            None => 64,
        };
        let mut bytes: Vec<u8> = Vec::new();
        let n = count as usize;
        while bytes.len() < n
            invariant
                bytes@.len() <= n,
                bytes@ == zeros(bytes@.len()),
            decreases n - bytes@.len(),
        {
            bytes.push(0);
            proof {
                assert(bytes@ =~= zeros(bytes@.len()));
            }
        }
        let data = encode_base64(bytes.as_slice());
        let address = str_value_or(args, "memoryReference", "0x0");
        proof {
            assert(items_view(events@) =~= items_view(events@) + events_view(self@.seq, seq![]));
        }
        (true, read_memory_body(address, data))
    }

    fn do_disassemble(&self, args: &JsonValue, events: &Vec<JsonValue>) -> (r: (bool, JsonValue))
        requires
            instruction_count(*args) == 0 || 0x1000 + 4 * (instruction_count(*args) - 1) <= u64::MAX,
        ensures
            performs(self@, self@, events@, events@, r, on_disassemble(self@, *args)),
    {
        let count = match u64_member(args, "instructionCount") {
            Some(c) => c,
            None => 10,
        };
        let mut out = new_items();
        let mut i: u64 = 0;
        while i < count
            invariant
                i <= count,
                count == 0 || 0x1000 + 4 * (count - 1) <= u64::MAX,
                items_view(out@) == Seq::new(i as nat, |k: int| instruction_view(k as nat)),
            decreases count - i,
        {
            push_item(&mut out, instruction(i));
            proof {
                assert(items_view(out@) =~= Seq::new((i + 1) as nat, |k: int| instruction_view(k as nat)));
            }
            i = i + 1;
        }
        let mut e = new_entries();
        put(&mut e, "instructions", array(out));
        proof {
            assert(items_view(events@) =~= items_view(events@) + events_view(self@.seq, seq![]));
            assert(entries_view(e@) =~= seq![
                (
                    "instructions"@,
                    JsonView::Array(Seq::new(count as nat, |k: int| instruction_view(k as nat))),
                ),
            ]);
        }
        (true, object(e))
    }
}

/// What a command comes to, by its name.
pub open spec fn outcome(st: MockView, command: Seq<char>, args: JsonValue) -> MockOutcome {
    if command == "initialize"@ {
        on_initialize(st)
    } else if command == "launch"@ {
        on_launch(st, args)
    } else if command == "attach"@ {
        on_attach(st)
    } else if command == "configurationDone"@ {
        on_configuration_done(st)
    } else if command == "setBreakpoints"@ {
        on_set_breakpoints(st, args)
    } else if command == "setFunctionBreakpoints"@ {
        on_set_function_breakpoints(st, args)
    } else if command == "setDataBreakpoints"@ {
        on_set_data_breakpoints(st, args)
    } else if command == "dataBreakpointInfo"@ {
        on_data_breakpoint_info(st, args)
    } else if command == "continue"@ {
        on_continue(st)
    } else if command == "next"@ || command == "stepIn"@ || command == "stepOut"@ {
        on_step(st)
    } else if command == "pause"@ {
        on_pause(st)
    } else if command == "threads"@ {
        on_threads(st)
    } else if command == "stackTrace"@ {
        on_stack_trace(st)
    } else if command == "scopes"@ {
        on_scopes(st)
    } else if command == "variables"@ {
        on_variables(st, args)
    } else if command == "evaluate"@ {
        on_evaluate(st, args)
    } else if command == "setVariable"@ {
        on_set_variable(st, args)
    } else if command == "readMemory"@ {
        on_read_memory(st, args)
    } else if command == "disassemble"@ {
        on_disassemble(st, args)
    } else if command == "restart"@ {
        on_restart(st)
    } else if command == "disconnect"@ {
        on_disconnect(st)
    } else if command == "terminate"@ {
        plain(st, JsonView::Null)
    } else {
        on_unknown(st, command)
    }
}

/// The limits a request must keep: room for the sequence numbers of a
/// response and two events, for the next line when stepping, for the
/// breakpoint identifiers, for the encoded memory, and for the addresses of
/// the disassembly.
pub open spec fn request_fits(st: MockView, command: Seq<char>, args: JsonValue) -> bool {
    &&& st.seq + 3 <= i64::MAX
    &&& (command == "continue"@ || command == "next"@ || command == "stepIn"@ || command
        == "stepOut"@) ==> st.current_line < u32::MAX
    &&& (command == "setBreakpoints"@ || command == "setFunctionBreakpoints"@ || command
        == "setDataBreakpoints"@) ==> items_at(args, "breakpoints"@).len() < i64::MAX - 200
    &&& command == "readMemory"@ ==> memory_count(args) <= usize::MAX && memory_count(args) / 3 * 4 + 4
        <= usize::MAX
    &&& command == "disassemble"@ ==> (instruction_count(args) == 0 || 0x1000 + 4 * (
    instruction_count(args) - 1) <= u64::MAX)
}

/// The messages sent for a request: the response, numbered with the next
/// sequence number, then the events.
pub open spec fn reply_view(st: MockView, command: Seq<char>, request_seq: i64, args: JsonValue) -> Seq<
    JsonView,
> {
    let o = outcome(with_seq(st, st.seq + 1), command, args);
    seq![response_view(st.seq, request_seq, o.success, command, o.body)] + events_view(
        st.seq + 1,
        o.events,
    )
}

/// The state after a request.
pub open spec fn after_reply(st: MockView, command: Seq<char>, args: JsonValue) -> MockView {
    let o = outcome(with_seq(st, st.seq + 1), command, args);
    with_seq(o.state, st.seq + 1 + o.events.len())
}

/// The command, sequence number and arguments of a request message; `None`
/// for any other message. Absent arguments read as `null`, which has no
/// members, as an empty object has none.
pub open spec fn request_parts(message: JsonValue) -> Option<(Seq<char>, i64, JsonValue)> {
    if str_at(message, "type"@) == Some("request"@) {
        match (str_at(message, "command"@), i64_at(message, "seq"@)) {
            (Some(c), Some(s)) => Some(
                (
                    c,
                    s,
                    match member(message, "arguments"@) {
                        Some(a) => a,
                        None => JsonValue::Null,
                    },
                ),
            ),
            _ => None,
        }
    } else {
        None
    }
}

fn response(seq: i64, request_seq: i64, success: bool, command: &str, body: JsonValue) -> (r: JsonValue)
    ensures
        json_view(r) == response_view(seq as int, request_seq, success, command@, json_view(body)),
{
    let ghost bv = json_view(body);
    let mut e = new_entries();
    put(&mut e, "seq", num(seq));
    put(&mut e, "type", text("response"));
    put(&mut e, "request_seq", num(request_seq));
    put(&mut e, "success", JsonValue::Bool(success));
    put(&mut e, "command", text(command));
    put(&mut e, "body", body);
    proof {
        assert(entries_view(e@) =~= seq![
            ("seq"@, vnum(seq as int)),
            ("type"@, vstr("response"@)),
            ("request_seq"@, vnum(request_seq as int)),
            ("success"@, JsonView::Bool(success)),
            ("command"@, vstr(command@)),
            ("body"@, bv),
        ]);
    }
    object(e)
}

impl MockState {
    /// Runs a command: the response's success and body, with the events
    /// appended to `events`.
    fn run_command(&mut self, command: &str, args: &JsonValue, events: &mut Vec<JsonValue>) -> (r: (
        bool,
        JsonValue,
    ))
        requires
            old(self)@.seq + 2 <= i64::MAX,
            (command@ == "continue"@ || command@ == "next"@ || command@ == "stepIn"@ || command@
                == "stepOut"@) ==> old(self)@.current_line < u32::MAX,
            (command@ == "setBreakpoints"@ || command@ == "setFunctionBreakpoints"@ || command@
                == "setDataBreakpoints"@) ==> items_at(*args, "breakpoints"@).len() < i64::MAX - 200,
            command@ == "readMemory"@ ==> memory_count(*args) <= usize::MAX && memory_count(*args) / 3 * 4
                + 4 <= usize::MAX,
            command@ == "disassemble"@ ==> (instruction_count(*args) == 0 || 0x1000 + 4 * (
            instruction_count(*args) - 1) <= u64::MAX),
        ensures
            performs(
                old(self)@,
                final(self)@,
                old(events)@,
                final(events)@,
                r,
                outcome(old(self)@, command@, *args),
            ),
    {
        let c = crate::text::chars_of(command);
        let c = c.as_slice();
        if crate::text::eq_str(c, "initialize") {
            self.do_initialize(events)
        } else if crate::text::eq_str(c, "launch") {
            self.do_launch(args, events)
        } else if crate::text::eq_str(c, "attach") {
            self.do_attach(events)
        } else if crate::text::eq_str(c, "configurationDone") {
            self.do_configuration_done(events)
        } else if crate::text::eq_str(c, "setBreakpoints") {
            self.do_set_breakpoints(args, events)
        } else if crate::text::eq_str(c, "setFunctionBreakpoints") {
            self.do_set_function_breakpoints(args, events)
        } else if crate::text::eq_str(c, "setDataBreakpoints") {
            self.do_set_data_breakpoints(args, events)
        } else if crate::text::eq_str(c, "dataBreakpointInfo") {
            self.do_data_breakpoint_info(args, events)
        } else if crate::text::eq_str(c, "continue") {
            self.do_continue(events)
        } else if crate::text::eq_str(c, "next") || crate::text::eq_str(c, "stepIn")
            || crate::text::eq_str(c, "stepOut") {
            self.do_step(events)
        } else if crate::text::eq_str(c, "pause") {
            self.do_pause(events)
        } else if crate::text::eq_str(c, "threads") {
            self.do_threads(events)
        } else if crate::text::eq_str(c, "stackTrace") {
            self.do_stack_trace(events)
        } else if crate::text::eq_str(c, "scopes") {
            self.do_scopes(events)
        } else if crate::text::eq_str(c, "variables") {
            self.do_variables(args, events)
        } else if crate::text::eq_str(c, "evaluate") {
            self.do_evaluate(args, events)
        } else if crate::text::eq_str(c, "setVariable") {
            self.do_set_variable(args, events)
        } else if crate::text::eq_str(c, "readMemory") {
            self.do_read_memory(args, events)
        } else if crate::text::eq_str(c, "disassemble") {
            self.do_disassemble(args, events)
        } else if crate::text::eq_str(c, "restart") {
            self.do_restart(events)
        } else if crate::text::eq_str(c, "disconnect") {
            self.do_disconnect(events)
        } else if crate::text::eq_str(c, "terminate") {
            self.do_nothing(events)
        } else {
            self.do_unknown(command, events)
        }
    }

    /// Answers one request: the response first, numbered with the next
    /// sequence number, then the events the command sends.
    pub fn reply(&mut self, command: &str, request_seq: i64, args: &JsonValue) -> (r: Vec<JsonValue>)
        requires
            request_fits(old(self)@, command@, *args),
        ensures
            items_view(r@) == reply_view(old(self)@, command@, request_seq, *args),
            final(self)@ == after_reply(old(self)@, command@, *args),
    {
        let seq = self.next_seq();
        let mut events = new_items();
        let (success, body) = self.run_command(command, args, &mut events);
        let mut out = new_items();
        push_item(&mut out, response(seq, request_seq, success, command, body));
        let ghost head = items_view(out@);
        let ghost tail = items_view(events@);
        out.append(&mut events);
        proof {
            assert(items_view(out@) =~= head + tail);
        }
        out
    }

    /// Handles one incoming message. Anything but a request with a string
    /// command and an integer sequence number is ignored (`None`, and the
    /// state is unchanged); a request is answered as `reply` says.
    pub fn process_message(&mut self, message: &JsonValue) -> (r: Option<Vec<JsonValue>>)
        requires
            match request_parts(*message) {
                Some((c, _, a)) => request_fits(old(self)@, c, a),
                None => true,
            },
        ensures
            match request_parts(*message) {
                None => r is None && final(self)@ == old(self)@,
                Some((c, s, a)) => r matches Some(out) && items_view(out@) == reply_view(
                    old(self)@,
                    c,
                    s,
                    a,
                ) && final(self)@ == after_reply(old(self)@, c, a),
            },
    {
        let is_request = match crate::json::get_str(message, "type") {
            Some(t) => {
                let tc = crate::text::chars_of(t.as_str());
                crate::text::eq_str(tc.as_slice(), "request")
            },
            None => false,
        };
        if !is_request {
            return None;
        }
        let command = match crate::json::get_str(message, "command") {
            Some(c) => c,
            None => return None,
        };
        let request_seq = match crate::json::get_i64(message, "seq") {
            Some(n) => n,
            None => return None,
        };
        let null = JsonValue::Null;
        let args = match crate::json::member_ref(message, "arguments") {
            Some(a) => a,
            None => &null,
        };
        Some(self.reply(command.as_str(), request_seq, args))
    }
}

/// `s` with every leading repetition of `p` removed (`trim_start_matches`).
pub open spec fn strip_prefixes(s: Seq<char>, p: Seq<char>) -> Seq<char>
    decreases s.len(),
{
    if p.len() > 0 && crate::text::has_prefix(s, p) {
        strip_prefixes(s.skip(p.len() as int), p)
    } else {
        s
    }
}

/// The body length that a header line announces: `None` when the line is
/// not a `Content-Length:` header; 0 when its value is not a number.
pub open spec fn header_length_spec(line: Seq<char>) -> Option<usize> {
    if !crate::text::has_prefix(line, "Content-Length:"@) {
        None
    } else {
        match crate::number::parse_unsigned(
            crate::text::trimmed(strip_prefixes(line, "Content-Length:"@)),
            usize::MAX as nat,
        ) {
            Some(n) => Some(n as usize),
            None => Some(0),
        }
    }
}

/// Reads a header line of an incoming message.
pub fn header_length(line: &str) -> (r: Option<usize>)
    ensures
        r == header_length_spec(line@),
{
    let cs = crate::text::chars_of(line);
    if !crate::text::starts_with_str(cs.as_slice(), "Content-Length:") {
        return None;
    }
    let p = crate::text::chars_of("Content-Length:");
    let mut rest = cs;
    while p.len() > 0 && crate::text::starts_with(rest.as_slice(), p.as_slice())
        invariant
            p@ == "Content-Length:"@,
            strip_prefixes(rest@, p@) == strip_prefixes(line@, p@),
        decreases rest@.len(),
    {
        let next = crate::text::slice_range(rest.as_slice(), p.len(), rest.len());
        proof {
            assert(next@ =~= rest@.skip(p@.len() as int));
        }
        rest = next;
    }
    let t = crate::text::trim(rest.as_slice());
    match crate::number::parse_usize(t.as_slice()) {
        Some(n) => Some(n),
        None => Some(0),
    }
}

/// The sequence number of a message view, when it has one.
pub open spec fn seq_of(m: JsonView) -> Option<int> {
    match m {
        JsonView::Object(es) => if es.len() > 0 && es[0].0 == "seq"@ {
            match es[0].1 {
                JsonView::Number(n) => Some(n),
                _ => None,
            }
        } else {
            None
        },
        _ => None,
    }
}

/// Every request is answered first by a response to it, and the messages
/// sent carry consecutive sequence numbers, starting with the state's and
/// leaving the state at the next unused one.
pub proof fn law_reply_numbering(st: MockView, command: Seq<char>, request_seq: i64, args: JsonValue)
    ensures
        ({
            let out = reply_view(st, command, request_seq, args);
            &&& out.len() >= 1
            &&& out[0] matches JsonView::Object(es) && es.len() == 6 && es[1] == ("type"@, vstr(
                "response"@,
            )) && es[2] == ("request_seq"@, vnum(request_seq as int)) && es[4] == ("command"@, vstr(
                command,
            ))
            &&& forall|i: int| 0 <= i < out.len() ==> seq_of(#[trigger] out[i]) == Some(st.seq + i)
            &&& after_reply(st, command, args).seq == st.seq + out.len()
        }),
{
    let out = reply_view(st, command, request_seq, args);
    let o = outcome(with_seq(st, st.seq + 1), command, args);
    assert forall|i: int| 0 <= i < out.len() implies seq_of(#[trigger] out[i]) == Some(st.seq + i) by {
        if i > 0 {
            assert(out[i] == event_view(st.seq + 1 + (i - 1), o.events[i - 1]));
        }
    }
}

} // verus!
