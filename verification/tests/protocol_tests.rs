use debugger::common::Error;
use debugger::ipc::protocol::{BreakpointLocation, EvaluateContext};

#[test]
fn test_parse_file_line() {
    let loc = BreakpointLocation::parse("src/main.rs:42").unwrap();
    match loc {
        BreakpointLocation::Line { file, line } => {
            assert_eq!(file, "src/main.rs");
            assert_eq!(line, 42);
        }
        _ => panic!("Expected Line variant"),
    }
}

#[test]
fn test_parse_function() {
    let loc = BreakpointLocation::parse("main").unwrap();
    match loc {
        BreakpointLocation::Function { name } => {
            assert_eq!(name, "main");
        }
        _ => panic!("Expected Function variant"),
    }
}

#[test]
fn test_parse_namespaced_function() {
    let loc = BreakpointLocation::parse("mymod::MyStruct::method").unwrap();
    match loc {
        BreakpointLocation::Function { name } => {
            assert_eq!(name, "mymod::MyStruct::method");
        }
        _ => panic!("Expected Function variant"),
    }
}

#[test]
fn test_parse_windows_path() {
    let loc = BreakpointLocation::parse(r"C:\Users\test\src\main.rs:42").unwrap();
    match loc {
        BreakpointLocation::Line { file, line } => {
            assert_eq!(file, r"C:\Users\test\src\main.rs");
            assert_eq!(line, 42);
        }
        _ => panic!("Expected Line variant"),
    }
}

#[test]
fn test_breakpoint_location_parsing() {
    let loc = BreakpointLocation::parse("src/main.rs:42").unwrap();
    match loc {
        BreakpointLocation::Line { file, line } => {
            assert_eq!(file, "src/main.rs");
            assert_eq!(line, 42);
        }
        _ => panic!("Expected Line variant"),
    }

    let loc = BreakpointLocation::parse("main").unwrap();
    match loc {
        BreakpointLocation::Function { name } => {
            assert_eq!(name, "main");
        }
        _ => panic!("Expected Function variant"),
    }

    let loc = BreakpointLocation::parse("mymod::MyStruct::method").unwrap();
    match loc {
        BreakpointLocation::Function { name } => {
            assert_eq!(name, "mymod::MyStruct::method");
        }
        _ => panic!("Expected Function variant"),
    }
}

#[test]
fn location_with_too_large_line_is_invalid() {
    let err = BreakpointLocation::parse("main.rs:99999999999").unwrap_err();
    match err {
        Error::InvalidLocation(m) => assert_eq!(m, "invalid line number: 99999999999"),
        other => panic!("unexpected error {:?}", other),
    }
}

#[test]
fn location_with_non_numeric_suffix_is_a_function() {
    let loc = BreakpointLocation::parse("file.rs:abc").unwrap();
    assert!(matches!(loc, BreakpointLocation::Function { ref name } if name == "file.rs:abc"));
    let loc = BreakpointLocation::parse("file.rs:").unwrap();
    assert!(matches!(loc, BreakpointLocation::Function { ref name } if name == "file.rs:"));
}

#[test]
fn location_text_parses_back() {
    let loc = BreakpointLocation::Line { file: "src/lib.rs".to_string(), line: 7 };
    let text = loc.to_text();
    assert_eq!(text, "src/lib.rs:7");
    match BreakpointLocation::parse(&text).unwrap() {
        BreakpointLocation::Line { file, line } => {
            assert_eq!(file, "src/lib.rs");
            assert_eq!(line, 7);
        }
        _ => panic!("Expected Line variant"),
    }
}

#[test]
fn evaluate_context_names() {
    assert_eq!(EvaluateContext::default_context().as_str(), "watch");
    assert_eq!(EvaluateContext::Repl.as_str(), "repl");
    assert_eq!(EvaluateContext::Hover.as_str(), "hover");
}

#[test]
fn plus_sign_line_number_reads_as_number() {
    match BreakpointLocation::parse("a.c:+5") {
        Ok(BreakpointLocation::Function { name }) => assert_eq!(name, "a.c:+5"),
        other => panic!("unexpected {:?}", other),
    }
}
