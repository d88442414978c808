use debugger::json::JsonValue;
use debugger::mock_adapter::{header_length, read_memory_body, MockState};

fn s(x: &str) -> JsonValue {
    JsonValue::Str(x.to_string())
}

fn obj(entries: Vec<(&str, JsonValue)>) -> JsonValue {
    JsonValue::Object(entries.into_iter().map(|(k, v)| (k.to_string(), v)).collect())
}

fn get<'a>(v: &'a JsonValue, key: &str) -> &'a JsonValue {
    match v {
        JsonValue::Object(es) => &es.iter().find(|(k, _)| k == key).expect("member").1,
        _ => panic!("not an object"),
    }
}

fn request(seq: i64, command: &str, args: Option<JsonValue>) -> JsonValue {
    let mut es = vec![("seq", JsonValue::Number(seq)), ("type", s("request")), ("command", s(command))];
    if let Some(a) = args {
        es.push(("arguments", a));
    }
    obj(es)
}

#[test]
fn mock_initialize_answers_with_capabilities() {
    let mut st = MockState::default();
    let out = st.process_message(&request(7, "initialize", None)).expect("reply");
    assert_eq!(out.len(), 1);
    let r = &out[0];
    assert_eq!(get(r, "seq"), &JsonValue::Number(1));
    assert_eq!(get(r, "type"), &s("response"));
    assert_eq!(get(r, "request_seq"), &JsonValue::Number(7));
    assert_eq!(get(r, "success"), &JsonValue::Bool(true));
    assert_eq!(get(r, "command"), &s("initialize"));
    assert_eq!(get(get(r, "body"), "supportsReadMemoryRequest"), &JsonValue::Bool(true));
    assert!(st.initialized);
    assert_eq!(st.seq, 2);
}

#[test]
fn mock_ignores_non_requests() {
    let mut st = MockState::default();
    let ev = obj(vec![("seq", JsonValue::Number(1)), ("type", s("event")), ("event", s("x"))]);
    assert!(st.process_message(&ev).is_none());
    let no_seq = obj(vec![("type", s("request")), ("command", s("threads"))]);
    assert!(st.process_message(&no_seq).is_none());
    assert_eq!(st.seq, 1);
}

#[test]
fn mock_continue_steps_a_line_and_stops_at_breakpoint() {
    let mut st = MockState::default();
    let out = st.process_message(&request(3, "continue", None)).expect("reply");
    assert_eq!(out.len(), 2);
    assert_eq!(get(&out[0], "body"), &obj(vec![("allThreadsContinued", JsonValue::Bool(true))]));
    let ev = &out[1];
    assert_eq!(get(ev, "seq"), &JsonValue::Number(2));
    assert_eq!(get(ev, "event"), &s("stopped"));
    let body = get(ev, "body");
    assert_eq!(get(body, "reason"), &s("breakpoint"));
    assert_eq!(get(body, "hitBreakpointIds"), &JsonValue::Array(vec![JsonValue::Number(1)]));
    assert_eq!(st.current_line, 2);
    assert!(st.stopped);
    assert_eq!(st.seq, 3);
}

#[test]
fn mock_configuration_done_with_stop_on_entry() {
    let mut st = MockState::default();
    st.process_message(&request(1, "launch", Some(obj(vec![("program", s("/bin/a")), ("stopOnEntry", JsonValue::Bool(true))]))));
    assert_eq!(st.program, Some("/bin/a".to_string()));
    assert!(st.stopped);
    let out = st.process_message(&request(2, "configurationDone", None)).expect("reply");
    assert_eq!(out.len(), 3);
    assert_eq!(get(&out[1], "event"), &s("initialized"));
    assert_eq!(get(get(&out[2], "body"), "reason"), &s("entry"));
    assert_eq!(get(&out[2], "seq"), &JsonValue::Number(4));
}

#[test]
fn mock_set_breakpoints_answers_each_line() {
    let mut st = MockState::default();
    let args = obj(vec![
        ("source", obj(vec![("path", s("/src/a.c"))])),
        ("breakpoints", JsonValue::Array(vec![obj(vec![("line", JsonValue::Number(10))]), obj(vec![])])),
    ]);
    let out = st.process_message(&request(5, "setBreakpoints", Some(args))).expect("reply");
    let bps = get(get(&out[0], "body"), "breakpoints");
    let expected = JsonValue::Array(vec![
        obj(vec![
            ("id", JsonValue::Number(1)),
            ("verified", JsonValue::Bool(true)),
            ("line", JsonValue::Number(10)),
            ("source", obj(vec![("path", s("/src/a.c"))])),
        ]),
        obj(vec![
            ("id", JsonValue::Number(2)),
            ("verified", JsonValue::Bool(true)),
            ("line", JsonValue::Number(1)),
            ("source", obj(vec![("path", s("/src/a.c"))])),
        ]),
    ]);
    assert_eq!(bps, &expected);
    assert_eq!(st.breakpoints, vec![("/src/a.c".to_string(), vec![10, 1])]);
    let again = obj(vec![
        ("source", obj(vec![("path", s("/src/a.c"))])),
        ("breakpoints", JsonValue::Array(vec![obj(vec![("line", JsonValue::Number(3))])])),
    ]);
    st.process_message(&request(6, "setBreakpoints", Some(again)));
    assert_eq!(st.breakpoints, vec![("/src/a.c".to_string(), vec![3])]);
}

#[test]
fn mock_function_and_data_breakpoints() {
    let mut st = MockState::default();
    let args = obj(vec![("breakpoints", JsonValue::Array(vec![obj(vec![("name", s("main"))])]))]);
    let out = st.process_message(&request(1, "setFunctionBreakpoints", Some(args))).expect("reply");
    let bp = match get(get(&out[0], "body"), "breakpoints") {
        JsonValue::Array(v) => v[0].clone_shallow(),
        _ => panic!(),
    };
    assert_eq!(get(&bp, "id"), &JsonValue::Number(100));
    assert_eq!(get(&bp, "message"), &s("Breakpoint at function main"));
    let args = obj(vec![("breakpoints", JsonValue::Array(vec![obj(vec![("dataId", s("&x"))])]))]);
    let out = st.process_message(&request(2, "setDataBreakpoints", Some(args))).expect("reply");
    let bps = get(get(&out[0], "body"), "breakpoints");
    assert_eq!(
        bps,
        &JsonValue::Array(vec![obj(vec![
            ("id", JsonValue::Number(200)),
            ("verified", JsonValue::Bool(true)),
            ("message", s("Watchpoint on &x")),
        ])])
    );
    assert_eq!(st.data_breakpoints, vec![("&x".to_string(), "write".to_string())]);
}

trait CloneShallow {
    fn clone_shallow(&self) -> JsonValue;
}

impl CloneShallow for JsonValue {
    fn clone_shallow(&self) -> JsonValue {
        match self {
            JsonValue::Null => JsonValue::Null,
            JsonValue::Bool(b) => JsonValue::Bool(*b),
            JsonValue::Number(n) => JsonValue::Number(*n),
            JsonValue::OtherNumber(t) => JsonValue::OtherNumber(t.clone()),
            JsonValue::Str(t) => JsonValue::Str(t.clone()),
            JsonValue::Array(v) => JsonValue::Array(v.iter().map(|x| x.clone_shallow()).collect()),
            JsonValue::Object(es) => JsonValue::Object(es.iter().map(|(k, v)| (k.clone(), v.clone_shallow())).collect()),
        }
    }
}

#[test]
fn mock_data_breakpoint_info_names_the_variable() {
    let mut st = MockState::default();
    let out = st.process_message(&request(1, "dataBreakpointInfo", Some(obj(vec![("name", s("count"))])))).expect("reply");
    let body = get(&out[0], "body");
    assert_eq!(get(body, "dataId"), &s("&count"));
    assert_eq!(get(body, "description"), &s("Address of variable 'count'"));
    assert_eq!(get(body, "canPersist"), &JsonValue::Bool(true));
}

#[test]
fn mock_variables_and_evaluate() {
    let mut st = MockState::default();
    let out = st.process_message(&request(1, "variables", Some(obj(vec![("variablesReference", JsonValue::Number(1000))])))).expect("reply");
    match get(get(&out[0], "body"), "variables") {
        JsonValue::Array(v) => {
            assert_eq!(v.len(), 3);
            assert_eq!(get(&v[0], "name"), &s("x"));
            assert_eq!(get(&v[0], "value"), &s("42"));
            assert_eq!(get(&v[2], "type"), &s("const char*"));
        }
        _ => panic!(),
    }
    let out = st.process_message(&request(2, "variables", Some(obj(vec![("variablesReference", JsonValue::Number(2000))])))).expect("reply");
    assert_eq!(get(get(&out[0], "body"), "variables"), &JsonValue::Array(vec![]));
    let out = st.process_message(&request(3, "evaluate", Some(obj(vec![("expression", s("y"))])))).expect("reply");
    assert_eq!(get(get(&out[0], "body"), "result"), &s("3.14"));
    assert_eq!(get(get(&out[0], "body"), "type"), &s("double"));
    let out = st.process_message(&request(4, "evaluate", Some(obj(vec![("expression", s("a+b"))])))).expect("reply");
    assert_eq!(get(get(&out[0], "body"), "result"), &s("(eval result: a+b)"));
    assert_eq!(get(get(&out[0], "body"), "type"), &s("int"));
}

#[test]
fn mock_set_variable_known_and_unknown() {
    let mut st = MockState::default();
    let out = st.process_message(&request(1, "setVariable", Some(obj(vec![("name", s("x")), ("value", s("7"))])))).expect("reply");
    assert_eq!(get(&out[0], "success"), &JsonValue::Bool(true));
    assert_eq!(get(get(&out[0], "body"), "value"), &s("7"));
    assert_eq!(get(get(&out[0], "body"), "type"), &s("int"));
    assert_eq!(st.variables[0], ("x".to_string(), "7".to_string(), "int".to_string()));
    let out = st.process_message(&request(2, "setVariable", Some(obj(vec![("name", s("zz")), ("value", s("1"))])))).expect("reply");
    assert_eq!(get(&out[0], "success"), &JsonValue::Bool(false));
    assert_eq!(get(get(&out[0], "body"), "message"), &s("Variable 'zz' not found"));
}

#[test]
fn mock_read_memory_encodes_zero_bytes() {
    let mut st = MockState::default();
    let out = st.process_message(&request(1, "readMemory", Some(obj(vec![("memoryReference", s("0x10")), ("count", JsonValue::Number(4))])))).expect("reply");
    let body = get(&out[0], "body");
    assert_eq!(get(body, "address"), &s("0x10"));
    assert_eq!(get(body, "data"), &s("AAAAAA=="));
    assert_eq!(get(body, "unreadableBytes"), &JsonValue::Number(0));
    let out = st.process_message(&request(2, "readMemory", None)).expect("reply");
    let body = get(&out[0], "body");
    assert_eq!(get(body, "address"), &s("0x0"));
    match get(body, "data") {
        JsonValue::Str(d) => assert_eq!(d.len(), 88),
        _ => panic!(),
    }
    assert_eq!(read_memory_body("a".to_string(), "b".to_string()), obj(vec![("address", s("a")), ("data", s("b")), ("unreadableBytes", JsonValue::Number(0))]));
}

#[test]
fn mock_disassemble_makes_instructions() {
    let mut st = MockState::default();
    let out = st.process_message(&request(1, "disassemble", Some(obj(vec![("instructionCount", JsonValue::Number(10))])))).expect("reply");
    match get(get(&out[0], "body"), "instructions") {
        JsonValue::Array(v) => {
            assert_eq!(v.len(), 10);
            assert_eq!(get(&v[0], "address"), &s("0x1000"));
            assert_eq!(get(&v[9], "address"), &s("0x1024"));
            assert_eq!(get(&v[9], "instruction"), &s("mov r1, #9"));
            assert_eq!(get(&v[3], "instructionBytes"), &s("00 00 00 00"));
        }
        _ => panic!(),
    }
}

#[test]
fn mock_stack_trace_and_restart() {
    let mut st = MockState::default();
    st.process_message(&request(1, "next", None));
    let out = st.process_message(&request(2, "stackTrace", None)).expect("reply");
    let body = get(&out[0], "body");
    assert_eq!(get(body, "totalFrames"), &JsonValue::Number(2));
    match get(body, "stackFrames") {
        JsonValue::Array(v) => {
            assert_eq!(get(&v[0], "line"), &JsonValue::Number(2));
            assert_eq!(get(get(&v[0], "source"), "path"), &s("/test/main.c"));
            assert_eq!(get(&v[1], "name"), &s("__libc_start_main"));
        }
        _ => panic!(),
    }
    let out = st.process_message(&request(3, "restart", None)).expect("reply");
    assert_eq!(out.len(), 2);
    assert_eq!(st.current_line, 1);
    st.process_message(&request(4, "disconnect", None));
    assert!(!st.launched);
    assert!(!st.stopped);
}

#[test]
fn mock_unknown_command_fails() {
    let mut st = MockState::default();
    let out = st.process_message(&request(9, "frobnicate", None)).expect("reply");
    assert_eq!(get(&out[0], "success"), &JsonValue::Bool(false));
    assert_eq!(get(get(&out[0], "body"), "message"), &s("Unknown command: frobnicate"));
}

#[test]
fn mock_header_lines() {
    assert_eq!(header_length("Content-Length: 42\r\n"), Some(42));
    assert_eq!(header_length("Content-Length: abc\r\n"), Some(0));
    assert_eq!(header_length("X-Other: 1\r\n"), None);
}
