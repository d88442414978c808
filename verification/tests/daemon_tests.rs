use debugger::commands::{acknowledgement, request_for, BreakpointCommands, Commands};
use debugger::common::Error;
use debugger::daemon::actor::{snapshot_changed, snapshot_of, SessionSnapshot};
use debugger::daemon::handler::{
    await_immediate, check_breakpoint_support, check_restart, output_reply, removal, require_no_session,
    require_session, source_window, Removal,
};
use debugger::daemon::server::{await_step, daemon_stopping_response, file_name, stop_location, stop_result_from, AwaitStep};
use debugger::daemon::session::{OutputEvent, SessionCore, SessionState};
use debugger::dap::types::Capabilities;
use debugger::ipc::protocol::{BreakpointLocation, Command, StackFrameInfo};
use debugger::json::JsonValue;

fn caps(function: bool, conditional: bool, hits: bool) -> Capabilities {
    Capabilities {
        supports_configuration_done_request: true,
        supports_function_breakpoints: function,
        supports_conditional_breakpoints: conditional,
        supports_hit_conditional_breakpoints: hits,
        supports_evaluate_for_hovers: false,
        supports_step_back: false,
        supports_set_variable: false,
        supports_restart_frame: false,
        supports_restart_request: false,
        supports_goto_targets_request: false,
        supports_step_in_targets_request: false,
        supports_completions_request: false,
        supports_modules_request: false,
        supports_data_breakpoints: false,
        supports_read_memory_request: false,
        supports_disassemble_request: false,
        supports_terminate_request: false,
    }
}

#[test]
fn command_checks() {
    assert!(matches!(require_session(false), Err(Error::SessionNotActive)));
    assert!(matches!(require_no_session(true), Err(Error::SessionAlreadyActive)));
    let f = BreakpointLocation::Function { name: "main".to_string() };
    match check_breakpoint_support(&f, false, false, &caps(false, true, true)) {
        Err(Error::Internal(m)) => {
            assert_eq!(m, "Debug adapter does not support function breakpoints. Use file:line format instead.")
        }
        other => panic!("unexpected {:?}", other),
    }
    let l = BreakpointLocation::Line { file: "a.c".to_string(), line: 1 };
    assert!(check_breakpoint_support(&l, true, true, &caps(false, true, true)).is_ok());
    assert!(matches!(check_breakpoint_support(&l, false, true, &caps(true, true, false)), Err(Error::Internal(_))));
    assert_eq!(removal(Some(3), false).unwrap(), Removal::One(3));
    assert_eq!(removal(Some(3), true).unwrap(), Removal::All);
    assert!(matches!(removal(None, false), Err(Error::InvalidLocation(m)) if m == "Must specify breakpoint ID or --all"));
    assert!(check_restart(false).is_err());
}

#[test]
fn await_answers() {
    let mut core = SessionCore::new(SessionState::Stopped, Some("attach".to_string()), 5);
    match await_immediate(&core) {
        Some(JsonValue::Object(e)) => {
            assert_eq!(e[0].1, JsonValue::Str("attach".to_string()));
            assert_eq!(e[1].1, JsonValue::Number(0));
            assert_eq!(e[2].1, JsonValue::Bool(true));
        }
        other => panic!("unexpected {:?}", other),
    }
    core.state = SessionState::Running;
    assert!(await_immediate(&core).is_none());
    let snap = snapshot_of(&core, None);
    assert!(matches!(await_step(&snap), Ok(AwaitStep::Wait)));
    core.state = SessionState::Exited;
    core.exit_code = Some(2);
    let exited = snapshot_of(&core, None);
    assert!(snapshot_changed(&snap, &exited));
    assert!(!snapshot_changed(&exited, &exited.clone()));
    match await_step(&exited) {
        Ok(AwaitStep::Reply(JsonValue::Object(e))) => assert_eq!(e[1].1, JsonValue::Number(2)),
        other => panic!("unexpected {:?}", other),
    }
    assert!(matches!(await_step(&SessionSnapshot::default()), Err(Error::SessionNotActive)));
    let stopped = SessionSnapshot { state: Some(SessionState::Stopped), ..snapshot_of(&core, None) };
    let result = stop_result_from(&stopped, Some("a.c".to_string()), Some(3), None);
    assert_eq!(result.reason, "attach");
    assert!(result.all_threads_stopped);
}

#[test]
fn locations_and_file_names() {
    assert_eq!(file_name("/home/u/src/main.c"), Some("main.c".to_string()));
    assert_eq!(file_name("src/dir/"), Some("dir".to_string()));
    assert_eq!(file_name("a/."), Some("a".to_string()));
    assert_eq!(file_name("a/.."), None);
    assert_eq!(file_name("/"), None);
    let frames = vec![StackFrameInfo { id: 1, name: "f".to_string(), source: Some("/x/y.c".to_string()), line: Some(3), column: Some(2) }];
    let (src, line, col) = stop_location(&frames);
    assert_eq!(src, Some("y.c".to_string()));
    assert_eq!((line, col), (Some(3), Some(2)));
    assert_eq!(stop_location(&[]), (None, None, None));
    let r = daemon_stopping_response(9);
    assert_eq!(r.id, 9);
    assert_eq!(r.error.unwrap().message, "Internal error: daemon is shutting down");
}

#[test]
fn output_and_source_replies() {
    let events = vec![
        OutputEvent { category: "stdout".to_string(), output: "Sum: ".to_string() },
        OutputEvent { category: "stdout".to_string(), output: "30\n".to_string() },
    ];
    match output_reply(&events) {
        JsonValue::Object(e) => {
            assert_eq!(e[0].1, JsonValue::Str("Sum: 30\n".to_string()));
            assert_eq!(e[1].1, JsonValue::Number(2));
        }
        other => panic!("unexpected {:?}", other),
    }
    let lines = source_window("a\nb\nc\nd\n", 2, 1);
    assert_eq!(lines.iter().map(|l| (l.number, l.content.as_str(), l.is_current)).collect::<Vec<_>>(), vec![
        (1, "a", false),
        (2, "b", true),
        (3, "c", false)
    ]);
}

#[test]
fn cli_requests() {
    let bp = Commands::Breakpoint(BreakpointCommands::Add { location: "main.c:3".to_string(), condition: None, hit_count: Some(2) });
    assert!(matches!(request_for(&bp).unwrap(), Some(Command::BreakpointAdd { hit_count: Some(2), .. })));
    assert!(matches!(request_for(&Commands::Step).unwrap(), Some(Command::StepIn)));
    assert!(matches!(request_for(&Commands::Thread { id: None }).unwrap(), Some(Command::Status)));
    assert!(matches!(request_for(&Commands::Frame { number: None }).unwrap(), None));
    assert!(matches!(request_for(&Commands::Break { location: "a:99999999999".to_string(), condition: None }), Err(Error::InvalidLocation(_))));
    assert_eq!(acknowledgement(&Commands::Next), Some("Stepping over...".to_string()));
    assert_eq!(
        acknowledgement(&Commands::Breakpoint(BreakpointCommands::Disable { id: 4 })),
        Some("Breakpoint 4 disabled".to_string())
    );
    assert_eq!(acknowledgement(&Commands::Thread { id: Some(-1) }), Some("Switched to thread -1".to_string()));
    assert_eq!(acknowledgement(&Commands::Locals), None);
}
