use debugger::cli::format::{current_thread_text, frames_text, output_shown};
use debugger::common::logging::{follow_step, last_lines};
use debugger::common::Error;
use debugger::daemon::session::{SessionCore, SessionState};
use debugger::dap::types::Thread;
use debugger::ipc::protocol::{Command, StackFrameInfo};

fn texts(lines: Vec<Vec<char>>) -> Vec<String> {
    lines.into_iter().map(|l| l.into_iter().collect()).collect()
}

#[test]
fn last_lines_takes_the_tail() {
    assert_eq!(texts(last_lines("a\nb\r\nc\n", 2)), vec!["b", "c"]);
    assert_eq!(texts(last_lines("a\nb\nc", 10)), vec!["a", "b", "c"]);
    assert!(last_lines("a\nb\n", 0).is_empty());
    assert!(last_lines("", 5).is_empty());
    assert_eq!(texts(last_lines("x\n\ny\n", 2)), vec!["", "y"]);
}

#[test]
fn follow_step_shows_new_text_and_restarts_after_truncation() {
    assert_eq!(follow_step(10, 15), (10, 15));
    assert_eq!(follow_step(10, 10), (10, 10));
    assert_eq!(follow_step(10, 4), (0, 4));
    assert_eq!(follow_step(10, 0), (0, 0));
}

#[test]
fn frames_text_lists_frames_or_says_none() {
    assert_eq!(frames_text(&[]), "No stack frames");
    let a = StackFrameInfo { id: 1, name: "inner".to_string(), source: Some("a.c".to_string()), line: Some(3), column: None };
    let b = StackFrameInfo { id: 2, name: "main".to_string(), source: None, line: None, column: None };
    assert_eq!(frames_text(&[a, b]), "#0 inner at a.c:3\n#1 main at ?:?");
}

#[test]
fn current_thread_text_names_the_stopped_thread() {
    assert_eq!(current_thread_text(Some(3)), "Current thread: 3");
    assert_eq!(current_thread_text(Some(-2)), "Current thread: -2");
    assert_eq!(current_thread_text(None), "No thread selected");
}

#[test]
fn output_shown_marks_empty_output() {
    assert_eq!(output_shown(""), "(no output)\n");
    assert_eq!(output_shown("hello\n"), "hello\n");
}

#[test]
fn resume_target_needs_a_stopped_program() {
    let threads = vec![Thread { id: 4, name: "main".to_string() }, Thread { id: 9, name: "worker".to_string() }];
    let running = SessionCore::new(SessionState::Running, None, 10);
    match running.resume_target(&threads) {
        Err(Error::InvalidState { action, state }) => {
            assert_eq!(action, "inspect");
            assert_eq!(state, "running");
        }
        other => panic!("unexpected {:?}", other.is_ok()),
    }
    let mut exited = SessionCore::new(SessionState::Exited, None, 10);
    exited.exit_code = Some(3);
    assert!(matches!(exited.resume_target(&threads), Err(Error::ProgramExited(3))));
    let mut stopped = SessionCore::new(SessionState::Stopped, None, 10);
    assert_eq!(stopped.resume_target(&threads).ok(), Some(4));
    assert!(matches!(stopped.resume_target(&[]), Err(Error::Internal(m)) if m == "No threads available"));
    stopped.stopped_thread = Some(9);
    assert_eq!(stopped.resume_target(&threads).ok(), Some(9));
    stopped.mark_continued();
    assert_eq!(stopped.state, SessionState::Running);
    assert!(stopped.stopped_thread.is_none());
    assert!(stopped.resume_target(&threads).is_err());
}

#[test]
fn directories_are_named_after_the_application() {
    assert_eq!(debugger::common::paths::application_name(), "debugger-cli");
}

#[test]
fn package_managers_are_probed_in_order() {
    let tools = debugger::setup::installer::manager_tools();
    let expected: Vec<Vec<&str>> = vec![
        vec!["apt"],
        vec!["dnf"],
        vec!["pacman"],
        vec!["brew"],
        vec!["winget"],
        vec!["scoop"],
        vec!["cargo"],
        vec!["pip3", "pip"],
        vec!["go"],
    ];
    assert_eq!(tools, expected);
}

#[test]
fn commands_are_read_without_regard_to_case() {
    assert!(matches!(debugger::testing::runner::parse_command("CONTINUE").unwrap(), Command::Continue));
    assert!(matches!(debugger::testing::runner::parse_command("Next").unwrap(), Command::Next));
}

fn run_with(outcomes: &[Result<(), String>]) -> debugger::testing::runner::TestResult {
    let name = "s".to_string();
    let mut done = 0;
    let mut last: Result<(), String> = Ok(());
    loop {
        match debugger::testing::runner::scenario_next(&name, done, outcomes.len(), last.clone()) {
            debugger::testing::runner::ScenarioNext::Run(i) => {
                last = outcomes[i].clone();
                done = i + 1;
            }
            debugger::testing::runner::ScenarioNext::Finish(t) => return t,
        }
    }
}

#[test]
fn scenario_run_stops_at_first_failing_step() {
    let t = run_with(&[Ok(()), Err("boom".to_string()), Ok(())]);
    assert!(!t.passed);
    assert_eq!(t.steps_run, 2);
    assert_eq!(t.steps_total, 3);
    assert_eq!(t.error.as_deref(), Some("boom"));
    let t = run_with(&[Ok(()), Ok(())]);
    assert!(t.passed);
    assert_eq!(t.steps_run, 2);
    assert!(t.error.is_none());
    let t = run_with(&[]);
    assert!(t.passed);
    assert_eq!(t.steps_run, 0);
}
