use debugger::cli::format::{
    await_shown, breakpoints_text, context_text, locals_text, status_text, threads_text, AwaitShown,
};
use debugger::common::Error;
use debugger::daemon::handler::{
    check_session, done_reply, frame_reply, list_reply, removal_reply, session_need, source_window, Removal, SessionNeed,
};
use debugger::setup::installer::executable_mode;
use debugger::ipc::protocol::{
    Command, ContextResult, EvaluateContext, SourceLine, StatusResult, ThreadInfo, VariableInfo,
};
use debugger::json::JsonValue;
use debugger::setup::adapters::installer_info;
use debugger::setup::detector::{debuggers_for_project, detect_project_types, ProjectType};
use debugger::setup::registry::{all_debuggers, get_debugger, get_installer};
use debugger::testing::runner::{scenario_next, scenario_passed, setup_failure, step_failure, ScenarioNext};

fn obj(entries: Vec<(&str, JsonValue)>) -> JsonValue {
    JsonValue::Object(entries.into_iter().map(|(k, v)| (k.to_string(), v)).collect())
}

fn text(s: &str) -> JsonValue {
    JsonValue::Str(s.to_string())
}

#[test]
fn fixed_replies_after_commands() {
    let start = Command::Start { program: "/bin/app".to_string(), args: vec![], adapter: None, stop_on_entry: false };
    assert_eq!(done_reply(&start), Some(obj(vec![("status", text("started")), ("program", text("/bin/app"))])));
    assert_eq!(
        done_reply(&Command::Attach { pid: 42, adapter: None }),
        Some(obj(vec![("status", text("attached")), ("pid", JsonValue::Number(42))]))
    );
    assert_eq!(done_reply(&Command::Continue), Some(obj(vec![("status", text("running"))])));
    assert_eq!(done_reply(&Command::StepOut), Some(obj(vec![("status", text("stepping"))])));
    assert_eq!(done_reply(&Command::Pause), Some(obj(vec![("status", text("pausing"))])));
    assert_eq!(done_reply(&Command::BreakpointDisable { id: 3 }), Some(obj(vec![("disabled", JsonValue::Number(3))])));
    assert_eq!(done_reply(&Command::ThreadSelect { id: -1 }), Some(obj(vec![("selected", JsonValue::Number(-1))])));
    assert_eq!(done_reply(&Command::Shutdown), Some(obj(vec![("shutdown", JsonValue::Bool(true))])));
    assert_eq!(done_reply(&Command::Threads), None);
    let eval = Command::Evaluate { expression: "x".to_string(), frame_id: None, context: EvaluateContext::Watch };
    assert_eq!(done_reply(&eval), None);
}

#[test]
fn removal_list_and_frame_replies() {
    assert_eq!(removal_reply(Removal::All), obj(vec![("removed", text("all"))]));
    assert_eq!(removal_reply(Removal::One(7)), obj(vec![("removed", JsonValue::Number(7))]));
    assert_eq!(
        list_reply("frames", vec![JsonValue::Number(1)]),
        obj(vec![("frames", JsonValue::Array(vec![JsonValue::Number(1)]))])
    );
    assert_eq!(
        frame_reply(2, text("f")),
        obj(vec![("selected", JsonValue::Number(2)), ("frame", text("f"))])
    );
}

fn var(name: &str, value: &str, ty: Option<&str>) -> VariableInfo {
    VariableInfo { name: name.to_string(), value: value.to_string(), value_type: ty.map(String::from), variables_reference: 0 }
}

#[test]
fn listings_print_their_items() {
    assert_eq!(threads_text(&[]), "No threads");
    let ts = vec![
        ThreadInfo { id: 1, name: "main".to_string(), state: None },
        ThreadInfo { id: 2, name: "worker".to_string(), state: None },
    ];
    assert_eq!(threads_text(&ts), "Threads:\n  1 - main\n  2 - worker");
    assert_eq!(locals_text(&[]), "No local variables");
    assert_eq!(locals_text(&[var("x", "5", Some("int"))]), "Local variables:\n  x = 5 (int)");
    assert_eq!(breakpoints_text(&[]), "No breakpoints set");
}

#[test]
fn context_view_marks_the_current_line() {
    let ctx = ContextResult {
        thread_id: 1,
        source: Some("main.c".to_string()),
        line: 9,
        column: Some(1),
        function: Some("main".to_string()),
        source_lines: vec![
            SourceLine { number: 8, content: "int x = 1;".to_string(), is_current: false },
            SourceLine { number: 9, content: "return x;".to_string(), is_current: true },
        ],
        locals: vec![var("x", "1", None)],
    };
    assert_eq!(
        context_text(&ctx),
        "Thread 1 stopped at main.c:9\nIn function: main\n\n      8 | int x = 1;\n->    9 | return x;\n\nLocals:\n  x = 1\n"
    );
}

#[test]
fn status_with_and_without_daemon() {
    assert_eq!(status_text(&None), "Daemon: not running\nSession: none\n");
    let idle = StatusResult {
        daemon_running: true,
        session_active: false,
        state: None,
        program: None,
        adapter: None,
        stopped_thread: None,
        stopped_reason: None,
    };
    assert_eq!(status_text(&Some(idle)), "Daemon: running\nSession: none\n");
    let busy = StatusResult {
        daemon_running: true,
        session_active: true,
        state: Some("stopped".to_string()),
        program: Some("./a".to_string()),
        adapter: None,
        stopped_thread: Some(4),
        stopped_reason: Some("breakpoint".to_string()),
    };
    assert_eq!(
        status_text(&Some(busy)),
        "Daemon: running\nSession: active\nProgram: ./a\nState: stopped\nStopped reason: breakpoint\nStopped thread: 4\n"
    );
}

#[test]
fn await_answers_are_shown() {
    match await_shown(&obj(vec![("reason", text("step")), ("already_stopped", JsonValue::Bool(true))])) {
        AwaitShown::Text(t) => assert_eq!(t, "Program was already stopped: step"),
        _ => panic!("expected text"),
    }
    match await_shown(&obj(vec![("reason", text("exited")), ("exit_code", JsonValue::Number(3))])) {
        AwaitShown::Text(t) => assert_eq!(t, "Program exited with code 3"),
        _ => panic!("expected text"),
    }
    match await_shown(&obj(vec![("reason", text("terminated"))])) {
        AwaitShown::Text(t) => assert_eq!(t, "Program terminated"),
        _ => panic!("expected text"),
    }
    assert!(matches!(await_shown(&obj(vec![("reason", text("breakpoint"))])), AwaitShown::Stop));
    assert!(matches!(await_shown(&obj(vec![])), AwaitShown::Nothing));
}

#[test]
fn scenario_outcomes_count_steps() {
    let r = setup_failure("s".to_string(), 4, "make", Some(2));
    assert!(!r.passed);
    assert_eq!(r.steps_run, 0);
    assert_eq!(r.error.as_deref(), Some("Setup command 'make' failed with exit code Some(2)"));
    let r = setup_failure("s".to_string(), 4, "make", None);
    assert_eq!(r.error.as_deref(), Some("Setup command 'make' failed with exit code None"));
    let r = step_failure("s".to_string(), 2, 4, "boom".to_string());
    assert_eq!((r.passed, r.steps_run, r.steps_total), (false, 2, 4));
    let r = scenario_passed("s".to_string(), 4);
    assert_eq!((r.passed, r.steps_run, r.error), (true, 4, None));
}

#[test]
fn registry_and_installers_agree() {
    let ids: Vec<&str> = all_debuggers().iter().map(|d| d.id).collect();
    assert_eq!(ids, vec!["gdb", "cuda-gdb", "lldb", "codelldb", "python", "go", "js-debug"]);
    for id in ids {
        let kind = get_installer(id).unwrap();
        let info = installer_info(kind);
        assert_eq!(info.id, id);
        assert_eq!(info.languages, get_debugger(id).unwrap().languages);
    }
    assert!(get_installer("nope").is_none() && get_debugger("nope").is_none());
    for p in [ProjectType::Rust, ProjectType::C, ProjectType::TypeScript, ProjectType::Cuda] {
        for id in debuggers_for_project(&p) {
            assert!(get_installer(id).is_some() && get_debugger(id).is_some());
        }
    }
    assert!(debuggers_for_project(&ProjectType::Java).is_empty());
}

#[test]
fn detection_reports_each_type_once_in_order() {
    let names: Vec<String> = ["tsconfig.json", "package.json", "Cargo.toml", "main.c", "Makefile"]
        .iter()
        .map(|s| s.to_string())
        .collect();
    assert_eq!(detect_project_types(&names), vec![ProjectType::Rust, ProjectType::TypeScript, ProjectType::C]);
    assert!(detect_project_types(&[]).is_empty());
}

#[test]
fn commands_check_the_session_first() {
    let start = Command::Start { program: "a".to_string(), args: vec![], adapter: None, stop_on_entry: false };
    assert_eq!(session_need(&start), SessionNeed::Absent);
    assert_eq!(session_need(&Command::Status), SessionNeed::Either);
    assert_eq!(session_need(&Command::Continue), SessionNeed::Required);
    assert!(matches!(check_session(&start, true), Err(Error::SessionAlreadyActive)));
    assert!(check_session(&start, false).is_ok());
    assert!(matches!(check_session(&Command::Threads, false), Err(Error::SessionNotActive)));
    assert!(check_session(&Command::Threads, true).is_ok());
    assert!(check_session(&Command::Shutdown, false).is_ok());
}

#[test]
fn scenario_runs_steps_until_one_fails() {
    let name = "s".to_string();
    assert!(matches!(scenario_next(&name, 0, 3, Ok(())), ScenarioNext::Run(0)));
    assert!(matches!(scenario_next(&name, 2, 3, Ok(())), ScenarioNext::Run(2)));
    match scenario_next(&name, 2, 3, Err("bad".to_string())) {
        ScenarioNext::Finish(r) => {
            assert_eq!((r.passed, r.steps_run, r.steps_total), (false, 2, 3));
            assert_eq!(r.error.as_deref(), Some("bad"));
        }
        _ => panic!("expected the end"),
    }
    match scenario_next(&name, 3, 3, Ok(())) {
        ScenarioNext::Finish(r) => assert!(r.passed && r.steps_run == 3 && r.error.is_none()),
        _ => panic!("expected the end"),
    }
    match scenario_next(&name, 0, 0, Ok(())) {
        ScenarioNext::Finish(r) => assert!(r.passed && r.steps_run == 0),
        _ => panic!("expected the end"),
    }
}

#[test]
fn executable_mode_adds_the_755_bits() {
    assert_eq!(executable_mode(0o644), 0o755);
    assert_eq!(executable_mode(0o100600), 0o100755);
    assert_eq!(executable_mode(0o4000), 0o4755);
}

#[test]
fn source_window_numbers_and_marks_lines() {
    let w = source_window("a\nb\nc\nd\ne", 3, 1);
    let got: Vec<(u32, String, bool)> = w.into_iter().map(|l| (l.number, l.content, l.is_current)).collect();
    assert_eq!(got, vec![(2, "b".to_string(), false), (3, "c".to_string(), true), (4, "d".to_string(), false)]);
    assert_eq!(source_window("a\nb", 1, 5).len(), 2);
}
