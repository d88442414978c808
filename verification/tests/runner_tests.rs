use debugger::common::Error;
use debugger::ipc::protocol::{BreakpointLocation, Command, EvaluateResult, StackFrameInfo, StopResult, VariableInfo};
use debugger::testing::config::{CommandExpectation, EvaluateExpectation, FrameAssertion, StopExpectation, VariableAssertion};
use debugger::testing::runner::{attach_mode, parse_command, pid_from_text};
use debugger::testing::steps::{
    check_command_outcome, check_evaluate, check_frames, check_output, check_stop, check_unexpected_result,
    check_variables, evaluate_expects_success, stop_location,
};

#[test]
fn test_parse_simple_commands() {
    assert!(matches!(parse_command("continue").unwrap(), Command::Continue));
    assert!(matches!(parse_command("c").unwrap(), Command::Continue));
    assert!(matches!(parse_command("next").unwrap(), Command::Next));
    assert!(matches!(parse_command("step").unwrap(), Command::StepIn));
    assert!(matches!(parse_command("finish").unwrap(), Command::StepOut));
    assert!(matches!(parse_command("pause").unwrap(), Command::Pause));
}

#[test]
fn test_parse_break_commands() {
    let cmd = parse_command("break main").unwrap();
    assert!(matches!(cmd, Command::BreakpointAdd { .. }));

    let cmd = parse_command("break add main.rs:42").unwrap();
    assert!(matches!(cmd, Command::BreakpointAdd { .. }));

    let cmd = parse_command("b foo.c:10").unwrap();
    assert!(matches!(cmd, Command::BreakpointAdd { .. }));
}

#[test]
fn test_parse_breakpoint_subcommands() {
    assert!(matches!(parse_command("breakpoint add main").unwrap(), Command::BreakpointAdd { .. }));
    assert!(matches!(parse_command("breakpoint list").unwrap(), Command::BreakpointList));
    assert!(matches!(parse_command("breakpoint remove 1").unwrap(), Command::BreakpointRemove { .. }));
}

#[test]
fn test_parse_print_commands() {
    let cmd = parse_command("print x + y").unwrap();
    match cmd {
        Command::Evaluate { expression, .. } => {
            assert_eq!(expression, "x + y");
        }
        _ => panic!("Expected Evaluate command"),
    }
}

#[test]
fn test_parse_break_with_hit_count() {
    let cmd = parse_command("break factorial --hit-count 3").unwrap();
    match cmd {
        Command::BreakpointAdd { hit_count, .. } => {
            assert_eq!(hit_count, Some(3));
        }
        _ => panic!("Expected BreakpointAdd command"),
    }

    let cmd = parse_command("break main.c:10 --hit-count 5").unwrap();
    match cmd {
        Command::BreakpointAdd { hit_count, .. } => {
            assert_eq!(hit_count, Some(5));
        }
        _ => panic!("Expected BreakpointAdd command"),
    }
}

#[test]
fn test_parse_break_with_condition_and_hit_count() {
    let cmd = parse_command("break foo --condition \"x > 5\" --hit-count 2").unwrap();
    match cmd {
        Command::BreakpointAdd { condition, hit_count, .. } => {
            assert_eq!(condition, Some("x > 5".to_string()));
            assert_eq!(hit_count, Some(2));
        }
        _ => panic!("Expected BreakpointAdd command"),
    }
}

fn config_message(e: Error) -> String {
    match e {
        Error::Config(m) => m,
        other => panic!("expected a configuration error, got {:?}", other),
    }
}

#[test]
fn command_errors_name_their_cause() {
    assert_eq!(config_message(parse_command("   ").unwrap_err()), "Empty command");
    assert_eq!(config_message(parse_command("jump 3").unwrap_err()), "Unknown command: jump");
    assert_eq!(config_message(parse_command("break").unwrap_err()), "break command requires a location");
    assert_eq!(config_message(parse_command("break f --hit-count x").unwrap_err()), "Invalid hit count: x");
    assert_eq!(config_message(parse_command("breakpoint").unwrap_err()), "breakpoint command requires a subcommand");
    assert_eq!(config_message(parse_command("breakpoint add").unwrap_err()), "breakpoint add requires a location");
    assert_eq!(config_message(parse_command("breakpoint enable").unwrap_err()), "breakpoint enable requires an ID");
    assert_eq!(config_message(parse_command("breakpoint disable z").unwrap_err()), "Invalid breakpoint ID: z");
    assert_eq!(config_message(parse_command("breakpoint zap").unwrap_err()), "Unknown breakpoint subcommand: zap");
    assert_eq!(config_message(parse_command("thread x").unwrap_err()), "Invalid thread ID: x");
    assert_eq!(config_message(parse_command("frame").unwrap_err()), "frame command requires a number");
    assert_eq!(config_message(parse_command("print").unwrap_err()), "print/eval command requires an expression");
    match parse_command("break main.c:99999999999").unwrap_err() {
        Error::InvalidLocation(m) => assert_eq!(m, "invalid line number: 99999999999"),
        other => panic!("unexpected {:?}", other),
    }
}

#[test]
fn command_word_is_case_insensitive() {
    assert!(matches!(parse_command("CONTINUE").unwrap(), Command::Continue));
    assert!(matches!(parse_command("Bt").unwrap(), Command::StackTrace { thread_id: None, limit: 20 }));
}

#[test]
fn break_collects_location_and_skips_add() {
    match parse_command("break add").unwrap() {
        Command::BreakpointAdd { location: BreakpointLocation::Function { name }, .. } => assert_eq!(name, "add"),
        other => panic!("unexpected {:?}", other),
    }
    match parse_command("break main.c:10 --condition i == 3").unwrap() {
        Command::BreakpointAdd { location: BreakpointLocation::Line { file, line }, condition, hit_count } => {
            assert_eq!(file, "main.c");
            assert_eq!(line, 10);
            assert_eq!(condition, Some("i == 3".to_string()));
            assert_eq!(hit_count, None);
        }
        other => panic!("unexpected {:?}", other),
    }
}

#[test]
fn breakpoint_remove_forms() {
    assert!(matches!(parse_command("breakpoint remove").unwrap(), Command::BreakpointRemove { id: None, all: true }));
    assert!(matches!(parse_command("breakpoint remove all").unwrap(), Command::BreakpointRemove { id: None, all: true }));
    assert!(matches!(parse_command("breakpoint remove 4").unwrap(), Command::BreakpointRemove { id: Some(4), all: false }));
    assert!(matches!(parse_command("breakpoint enable 2").unwrap(), Command::BreakpointEnable { id: 2 }));
}

#[test]
fn output_options() {
    assert!(matches!(parse_command("output --tail 5 --clear").unwrap(), Command::GetOutput { tail: Some(5), clear: true }));
    assert!(matches!(parse_command("output --tail").unwrap(), Command::GetOutput { tail: None, clear: false }));
    assert!(matches!(parse_command("output --tail x").unwrap(), Command::GetOutput { tail: None, clear: false }));
}

#[test]
fn other_commands() {
    assert!(matches!(parse_command("thread -2").unwrap(), Command::ThreadSelect { id: -2 }));
    assert!(matches!(parse_command("frame 3").unwrap(), Command::FrameSelect { number: 3 }));
    assert!(matches!(parse_command("up").unwrap(), Command::FrameUp));
    assert!(matches!(parse_command("locals").unwrap(), Command::Locals { frame_id: None }));
    assert!(matches!(parse_command("eval a").unwrap(), Command::Evaluate { .. }));
    assert!(matches!(parse_command("detach").unwrap(), Command::Detach));
}

#[test]
fn target_modes() {
    assert_eq!(attach_mode("attach").unwrap(), true);
    assert_eq!(attach_mode("launch").unwrap(), false);
    assert_eq!(
        config_message(attach_mode("remote").unwrap_err()),
        "Unknown target mode 'remote'. Supported modes: 'launch', 'attach'"
    );
    assert_eq!(pid_from_text(" 4242\n"), Some(4242));
    assert_eq!(pid_from_text("x"), None);
}

fn assertion(e: Error) -> String {
    match e {
        Error::TestAssertion(m) => m,
        other => panic!("expected an assertion failure, got {:?}", other),
    }
}

fn stop(reason: &str, source: Option<&str>, line: Option<u32>) -> StopResult {
    StopResult {
        reason: reason.to_string(),
        description: None,
        thread_id: Some(1),
        all_threads_stopped: true,
        hit_breakpoint_ids: vec![1],
        source: source.map(|s| s.to_string()),
        line,
        column: None,
    }
}

#[test]
fn stop_checks() {
    let exp = StopExpectation {
        reason: Some("breakpoint".to_string()),
        file: Some("main.c".to_string()),
        line: Some(10),
        exit_code: None,
        thread_id: None,
    };
    assert!(check_stop(&exp, &stop("breakpoint", Some("/src/main.c"), Some(10))).is_ok());
    assert_eq!(
        assertion(check_stop(&exp, &stop("step", Some("/src/main.c"), Some(10))).unwrap_err()),
        "Expected stop reason 'breakpoint', got 'step'"
    );
    assert_eq!(
        assertion(check_stop(&exp, &stop("breakpoint", None, Some(10))).unwrap_err()),
        "Expected file 'main.c', got ''"
    );
    assert_eq!(
        assertion(check_stop(&exp, &stop("breakpoint", Some("main.c"), None)).unwrap_err()),
        "Expected line 10, got 0"
    );
    assert_eq!(stop_location(&stop("step", Some("a.c"), Some(3))), "a.c:3");
    assert_eq!(stop_location(&stop("step", Some("a.c"), None)), "a.c");
    assert_eq!(stop_location(&stop("step", None, Some(3))), "unknown location");
}

fn var(name: &str, value: &str, ty: Option<&str>) -> VariableInfo {
    VariableInfo { name: name.to_string(), value: value.to_string(), value_type: ty.map(|t| t.to_string()), variables_reference: 0 }
}

#[test]
fn variable_checks() {
    let vars = vec![var("x", "10", Some("int")), var("y", "20", None)];
    let ok = VariableAssertion { name: "x".to_string(), value: Some("10".to_string()), value_contains: None, value_type: Some("int".to_string()) };
    assert!(check_variables(&[ok], &vars).is_ok());
    let wrong = VariableAssertion { name: "y".to_string(), value: Some("21".to_string()), value_contains: None, value_type: None };
    assert_eq!(assertion(check_variables(&[wrong], &vars).unwrap_err()), "Variable 'y': expected value '21', got '20'");
    let typed = VariableAssertion { name: "y".to_string(), value: None, value_contains: Some("2".to_string()), value_type: Some("int".to_string()) };
    assert_eq!(assertion(check_variables(&[typed], &vars).unwrap_err()), "Variable 'y': expected type 'int', got ''");
    let missing = VariableAssertion { name: "z".to_string(), value: None, value_contains: None, value_type: None };
    assert_eq!(
        assertion(check_variables(&[missing], &vars).unwrap_err()),
        "Variable 'z' not found. Available: [\"x\", \"y\"]"
    );
}

#[test]
fn frame_checks() {
    let frames = vec![StackFrameInfo { id: 1, name: "add".to_string(), source: Some("/s/simple.c".to_string()), line: Some(5), column: Some(1) }];
    let ok = FrameAssertion { index: 0, function: Some("add".to_string()), file: Some("simple.c".to_string()), line: Some(5) };
    assert!(check_frames(&[ok], &frames).is_ok());
    let far = FrameAssertion { index: 3, function: None, file: None, line: None };
    assert_eq!(assertion(check_frames(&[far], &frames).unwrap_err()), "Frame 3 does not exist (only 1 frames)");
    let func = FrameAssertion { index: 0, function: Some("main".to_string()), file: None, line: None };
    assert_eq!(assertion(check_frames(&[func], &frames).unwrap_err()), "Frame 0: expected function 'main', got 'add'");
}

#[test]
fn output_checks() {
    let want = "Sum".to_string();
    assert!(check_output(Some(&want), None, "Sum: 30\n").is_ok());
    let missing = "Product".to_string();
    assert_eq!(
        assertion(check_output(Some(&missing), None, "Sum: 30").unwrap_err()),
        "Output does not contain 'Product'. Got: 'Sum: 30'"
    );
    let long = "a".repeat(250);
    assert_eq!(
        assertion(check_output(Some(&missing), None, &long).unwrap_err()),
        format!("Output does not contain 'Product'. Got: '{}...'", "a".repeat(200))
    );
    let exact = "  Sum: 30 ".to_string();
    assert!(check_output(None, Some(&exact), "Sum: 30\n").is_ok());
    assert_eq!(
        assertion(check_output(None, Some(&exact), "Sum: 31").unwrap_err()),
        "Output mismatch. Expected: '  Sum: 30 ', got: 'Sum: 31'"
    );
}

#[test]
fn evaluate_checks() {
    let result = EvaluateResult { result: "30".to_string(), value_type: Some("int".to_string()), variables_reference: 0 };
    let exp = EvaluateExpectation { success: None, result: Some("30".to_string()), result_contains: None, value_type: Some("int".to_string()) };
    assert!(evaluate_expects_success(Some(&exp)));
    assert!(check_evaluate("x + y", Some(&exp), &result).is_ok());
    let wrong = EvaluateExpectation { success: None, result: Some("31".to_string()), result_contains: None, value_type: None };
    assert_eq!(assertion(check_evaluate("x + y", Some(&wrong), &result).unwrap_err()), "Evaluate 'x + y': expected '31', got '30'");
    let fail = EvaluateExpectation { success: Some(false), result: None, result_contains: Some("ERROR".to_string()), value_type: None };
    assert!(!evaluate_expects_success(Some(&fail)));
    let error_text = EvaluateResult { result: "error: no such variable".to_string(), value_type: None, variables_reference: 0 };
    assert!(check_unexpected_result("nope", Some(&fail), &error_text).is_ok());
    assert_eq!(
        assertion(check_unexpected_result("x", Some(&fail), &result).unwrap_err()),
        "Evaluate 'x': expected failure but got result '30'"
    );
}

#[test]
fn command_step_outcomes() {
    let fail = CommandExpectation { success: Some(false), output_contains: None };
    assert_eq!(check_command_outcome("stop", Some(&fail), false).unwrap(), true);
    assert_eq!(
        assertion(check_command_outcome("stop", Some(&fail), true).unwrap_err()),
        "Command 'stop' expected success=false, got success=true"
    );
    assert_eq!(check_command_outcome("stop", None, false).unwrap(), false);
}
