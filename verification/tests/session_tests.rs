use debugger::common::config::AdapterType;
use debugger::common::Error;
use debugger::daemon::breakpoints::{BreakpointGroup, BreakpointStore};
use debugger::daemon::session::{
    build_launch_args, check_frame, check_memory_read, frame_target, FrameMove, locals_scope, pick_thread, read_memory_result, OutputBuffer, SessionCore,
    SessionState,
};
use debugger::dap::types::{Breakpoint, Event, ExitedEventBody, OutputEventBody, Scope, StoppedEventBody, Thread};
use debugger::ipc::protocol::BreakpointLocation;

fn line(file: &str, line: u32) -> BreakpointLocation {
    BreakpointLocation::Line { file: file.to_string(), line }
}

#[test]
fn breakpoint_ids_are_fresh_and_increasing() {
    let mut store = BreakpointStore::new();
    let a = store.add(line("a.c", 3), None, None);
    let b = store.add(BreakpointLocation::Function { name: "main".to_string() }, Some("x > 1".to_string()), Some(2));
    let c = store.add(line("b.c", 9), None, None);
    assert_eq!((a, b, c), (1, 2, 3));
    let info = store.info(b).unwrap();
    assert_eq!(info.source, Some("main".to_string()));
    assert_eq!(info.condition, Some("x > 1".to_string()));
    assert_eq!(info.hit_count, Some(2));
    assert!(info.enabled && !info.verified);
}

#[test]
fn read_after_add_reports_the_line() {
    let mut store = BreakpointStore::new();
    let id = store.add(line("a.c", 12), None, None);
    let info = store.info(id).unwrap();
    assert_eq!(info.id, id);
    assert_eq!(info.source, Some("a.c".to_string()));
    assert_eq!(info.line, Some(12));
}

#[test]
fn removed_breakpoint_is_gone_and_others_stay() {
    let mut store = BreakpointStore::new();
    let a = store.add(line("a.c", 1), None, None);
    let b = store.add(line("a.c", 2), None, None);
    match store.remove(a).unwrap() {
        BreakpointGroup::Source(f) => assert_eq!(f, "a.c"),
        other => panic!("unexpected {:?}", other),
    }
    assert!(matches!(store.info(a), Err(Error::BreakpointNotFound { id }) if id == a));
    assert_eq!(store.info(b).unwrap().line, Some(2));
    assert!(matches!(store.remove(a), Err(Error::BreakpointNotFound { .. })));
}

#[test]
fn disabled_breakpoints_are_not_requested() {
    let mut store = BreakpointStore::new();
    let a = store.add(line("a.c", 1), Some("i > 2".to_string()), Some(3));
    let b = store.add(line("a.c", 2), None, None);
    store.add(line("b.c", 5), None, None);
    store.set_enabled(a, false).unwrap();
    assert!(!store.info(a).unwrap().enabled);
    let reqs = store.source_requests(&"a.c".to_string());
    assert_eq!(reqs.len(), 1);
    assert_eq!(reqs[0].line, 2);
    store.set_enabled(a, true).unwrap();
    let reqs = store.source_requests(&"a.c".to_string());
    assert_eq!(reqs.len(), 2);
    assert_eq!(reqs[0].hit_condition, Some("3".to_string()));
    assert_eq!(reqs[0].condition, Some("i > 2".to_string()));
    assert!(store.info(b).unwrap().enabled);
}

#[test]
fn answers_update_the_group_in_order() {
    let mut store = BreakpointStore::new();
    let a = store.add(line("a.c", 1), None, None);
    let f = store.add(BreakpointLocation::Function { name: "g".to_string() }, None, None);
    let b = store.add(line("a.c", 4), None, None);
    let answer = |v: bool, l: Option<u32>| Breakpoint { id: None, verified: v, message: None, source: None, line: l, column: None };
    store.apply_results(&BreakpointGroup::Source("a.c".to_string()), &[answer(true, Some(2)), answer(true, Some(5))]);
    assert_eq!(store.info(a).unwrap().line, Some(2));
    assert_eq!(store.info(b).unwrap().line, Some(5));
    assert!(!store.info(f).unwrap().verified);
    store.apply_results(&BreakpointGroup::Function, &[answer(true, Some(40))]);
    assert_eq!(store.info(f).unwrap().line, Some(40));
    let names = store.function_requests();
    assert_eq!(names.len(), 1);
    assert_eq!(names[0].name, "g");
}

#[test]
fn listing_goes_file_by_file_then_functions() {
    let mut store = BreakpointStore::new();
    store.add(line("a.c", 1), None, None);
    store.add(BreakpointLocation::Function { name: "g".to_string() }, None, None);
    store.add(line("b.c", 2), None, None);
    store.add(line("a.c", 3), None, None);
    let ids: Vec<u32> = store.list().iter().map(|i| i.id).collect();
    assert_eq!(ids, vec![1, 4, 3, 2]);
    let files = store.clear();
    assert_eq!(files, vec!["a.c".to_string(), "b.c".to_string()]);
    assert!(store.list().is_empty());
    assert_eq!(store.add(line("a.c", 1), None, None), 5);
}

#[test]
fn output_buffer_keeps_the_newest() {
    let mut buf = OutputBuffer::new(2);
    buf.push("stdout".to_string(), "a".to_string());
    buf.push("stdout".to_string(), "b".to_string());
    buf.push("stderr".to_string(), "c".to_string());
    assert_eq!(buf.len(), 2);
    let tail = buf.take(Some(1), false);
    assert_eq!(tail.len(), 1);
    assert_eq!(tail[0].output, "c");
    let all = buf.take(None, true);
    assert_eq!(all.iter().map(|e| e.output.as_str()).collect::<Vec<_>>(), vec!["b", "c"]);
    assert_eq!(buf.len(), 0);
    let mut tiny = OutputBuffer::new(0);
    tiny.push("x".to_string(), "1".to_string());
    tiny.push("x".to_string(), "2".to_string());
    assert_eq!(tiny.len(), 1);
}

fn stopped(reason: &str, thread: Option<i64>) -> Event {
    Event::Stopped(StoppedEventBody {
        reason: reason.to_string(),
        description: None,
        thread_id: thread,
        all_threads_stopped: true,
        hit_breakpoint_ids: vec![1],
        text: None,
    })
}

#[test]
fn events_drive_the_state() {
    let mut core = SessionCore::new(SessionState::Running, None, 10);
    assert!(matches!(core.ensure_stopped(), Err(Error::InvalidState { .. })));
    core.handle_event(&stopped("breakpoint", Some(7)));
    assert_eq!(core.state, SessionState::Stopped);
    assert_eq!(core.stopped_thread, Some(7));
    assert!(core.ensure_stopped().is_ok());
    assert!(core.check_pause().is_err());
    core.handle_event(&Event::Continued { thread_id: 7, all_threads_continued: true });
    assert_eq!(core.state, SessionState::Running);
    assert!(core.hit_breakpoints.is_empty());
    core.handle_event(&Event::Output(OutputEventBody { category: None, output: "hi".to_string(), source: None, line: None }));
    let out = core.output.take(None, false);
    assert_eq!(out[0].category, "console");
    core.handle_event(&Event::Exited(ExitedEventBody { exit_code: 3 }));
    assert!(matches!(core.ensure_stopped(), Err(Error::ProgramExited(3))));
    assert_eq!(SessionState::Terminating.as_str(), "terminating");
}

#[test]
fn launch_arguments_per_adapter() {
    let args = vec!["-v".to_string()];
    let d = build_launch_args(&AdapterType::Debugpy, "app.py", &args, Some("/w".to_string()), false);
    assert_eq!(d.console, Some("internalConsole".to_string()));
    assert_eq!(d.just_my_code, Some(true));
    assert_eq!(d.redirect_output, Some(true));
    let l = build_launch_args(&AdapterType::LldbDap, "a.out", &args, None, true);
    assert_eq!(l.program, "a.out");
    assert_eq!(l.args, args);
    assert!(l.stop_on_entry);
    assert_eq!(l.console, None);
}

#[test]
fn threads_and_scopes() {
    let threads = vec![Thread { id: 4, name: "main".to_string() }];
    assert_eq!(pick_thread(Some(9), &threads).unwrap(), 9);
    assert_eq!(pick_thread(None, &threads).unwrap(), 4);
    assert!(matches!(pick_thread(None, &[]), Err(Error::Internal(m)) if m == "No threads available"));
    let scope = |n: &str| Scope { name: n.to_string(), variables_reference: 1, expensive: false, source: None, line: None };
    assert_eq!(locals_scope(&[scope("Arguments"), scope("Locals")]), Some(1));
    assert_eq!(locals_scope(&[scope("Registers")]), Some(0));
    assert_eq!(locals_scope(&[]), None);
}

#[test]
fn memory_reads_decode_base64() {
    let r = read_memory_result("0x1000".to_string(), Some("AQID".to_string())).unwrap();
    assert_eq!(r.data, vec![1, 2, 3]);
    assert_eq!(r.bytes_read, 3);
    let none = read_memory_result("0x1000".to_string(), None).unwrap();
    assert!(none.data.is_empty());
    match read_memory_result("0x1000".to_string(), Some("!!".to_string())) {
        Err(Error::Internal(m)) => assert!(m.starts_with("Failed to decode memory data: ")),
        other => panic!("unexpected {:?}", other),
    }
    assert!(matches!(check_memory_read(false), Err(Error::NotSupported(_))));
}

#[test]
fn frame_moves_go_up_and_back_down() {
    assert_eq!(frame_target(0, FrameMove::Up).unwrap(), 1);
    assert_eq!(frame_target(1, FrameMove::Down).unwrap(), 0);
    assert!(matches!(frame_target(0, FrameMove::Down), Err(Error::FrameNotFound(0))));
    assert_eq!(frame_target(3, FrameMove::To(7)).unwrap(), 7);
    let up = frame_target(4, FrameMove::Up).unwrap();
    assert_eq!(frame_target(up, FrameMove::Down).unwrap(), 4);
    assert!(check_frame(2, 3).is_ok());
    assert!(matches!(check_frame(3, 3), Err(Error::FrameNotFound(3))));
}

#[test]
fn selecting_a_thread_forgets_the_frame() {
    let mut core = SessionCore::new(SessionState::Stopped, None, 10);
    core.select_frame(42);
    assert_eq!(core.current_frame, Some(42));
    core.select_thread(7);
    assert_eq!(core.stopped_thread, Some(7));
    assert_eq!(core.current_frame, None);
    assert_eq!(core.state, SessionState::Stopped);
}
