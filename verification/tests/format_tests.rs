use debugger::cli::format::{breakpoint_added, breakpoint_line, frame_line, memory_text, stop_lines, variable_line};
use debugger::ipc::protocol::{BreakpointInfo, StackFrameInfo, StopResult, VariableInfo};

fn info(verified: bool, enabled: bool) -> BreakpointInfo {
    BreakpointInfo {
        id: 3,
        verified,
        source: Some("main.c".to_string()),
        line: Some(10),
        message: None,
        enabled,
        condition: Some("x > 1".to_string()),
        hit_count: Some(2),
    }
}

#[test]
fn breakpoint_lines() {
    assert_eq!(breakpoint_added(&info(true, true)), "Breakpoint 3 set at main.c:10");
    let mut pending = info(false, true);
    pending.message = Some("no source".to_string());
    assert_eq!(breakpoint_added(&pending), "Breakpoint 3 pending: no source");
    assert_eq!(breakpoint_line(&info(true, true)), "  ✓ 3 main.c:10 (if x > 1, hits: 2)");
    let mut bare = info(false, false);
    bare.condition = None;
    bare.hit_count = None;
    bare.line = None;
    assert_eq!(breakpoint_line(&bare), "  ○ 3 main.c");
}

#[test]
fn stop_texts() {
    let stop = StopResult {
        reason: "breakpoint".to_string(),
        description: None,
        thread_id: Some(1),
        all_threads_stopped: true,
        hit_breakpoint_ids: vec![1, 2],
        source: Some("main.c".to_string()),
        line: Some(10),
        column: None,
    };
    assert_eq!(stop_lines(&stop), "Stopped at breakpoint\n  Breakpoint IDs: [1, 2]\n  Location: main.c:10\n");
    let mut signal = stop.clone();
    signal.reason = "signal".to_string();
    signal.description = Some("SIGSEGV".to_string());
    signal.source = None;
    assert_eq!(stop_lines(&signal), "Stopped: SIGSEGV\n");
    let mut other = stop.clone();
    other.reason = "goto".to_string();
    other.line = None;
    assert_eq!(stop_lines(&other), "Stopped: goto\n");
}

#[test]
fn frames_and_variables() {
    let f = StackFrameInfo { id: 1, name: "main".to_string(), source: None, line: Some(4), column: None };
    assert_eq!(frame_line(0, &f), "#0 main at ?:4");
    let v = VariableInfo { name: "x".to_string(), value: "10".to_string(), value_type: Some("int".to_string()), variables_reference: 0 };
    assert_eq!(variable_line(&v), "x = 10 (int)");
}

#[test]
fn memory_dumps() {
    let data: Vec<u8> = (0x41u8..0x53u8).collect();
    let hex = memory_text(&data, "HEX");
    let expected = "00000000  41 42 43 44 45 46 47 48  49 4a 4b 4c 4d 4e 4f 50  |ABCDEFGHIJKLMNOP|\n00000010  51 52                                             |QR|\n";
    assert_eq!(hex, expected);
    assert_eq!(memory_text(&[1, 200, 65], "ascii"), "..A\n");
    assert_eq!(memory_text(&[1, 200], "d"), "  1 200 \n");
    assert_eq!(memory_text(&[0x0a], "nonsense"), "00000000  0a                                                |.|\n");
}
