use debugger::dap::types::{Event, EventMessage, InitializeArguments};
use debugger::json::JsonValue;

fn obj(entries: Vec<(&str, JsonValue)>) -> JsonValue {
    JsonValue::Object(entries.into_iter().map(|(k, v)| (k.to_string(), v)).collect())
}

fn message(event: &str, body: Option<JsonValue>) -> EventMessage {
    EventMessage { seq: 1, message_type: "event".to_string(), event: event.to_string(), body }
}

#[test]
fn stopped_event_reads_its_body() {
    let body = obj(vec![
        ("reason", JsonValue::Str("breakpoint".to_string())),
        ("threadId", JsonValue::Number(3)),
        ("hitBreakpointIds", JsonValue::Array(vec![JsonValue::Number(1), JsonValue::Number(2)])),
        ("extra", JsonValue::Null),
    ]);
    match Event::from_message(message("stopped", Some(body))) {
        Event::Stopped(b) => {
            assert_eq!(b.reason, "breakpoint");
            assert_eq!(b.thread_id, Some(3));
            assert_eq!(b.hit_breakpoint_ids, vec![1, 2]);
            assert!(!b.all_threads_stopped);
            assert_eq!(b.description, None);
        }
        other => panic!("unexpected {:?}", other),
    }
}

#[test]
fn stopped_event_without_reason_stays_unknown() {
    let body = obj(vec![("threadId", JsonValue::Number(3))]);
    match Event::from_message(message("stopped", Some(body))) {
        Event::Unknown { event, body } => {
            assert_eq!(event, "stopped");
            assert!(body.is_some());
        }
        other => panic!("unexpected {:?}", other),
    }
    let bad_ids = obj(vec![
        ("reason", JsonValue::Str("step".to_string())),
        ("hitBreakpointIds", JsonValue::Array(vec![JsonValue::Number(-1)])),
    ]);
    assert!(matches!(Event::from_message(message("stopped", Some(bad_ids))), Event::Unknown { .. }));
}

#[test]
fn continued_and_exited_defaults() {
    assert!(matches!(
        Event::from_message(message("continued", None)),
        Event::Continued { thread_id: 0, all_threads_continued: true }
    ));
    let body = obj(vec![("threadId", JsonValue::Number(5)), ("allThreadsContinued", JsonValue::Bool(false))]);
    assert!(matches!(
        Event::from_message(message("continued", Some(body))),
        Event::Continued { thread_id: 5, all_threads_continued: false }
    ));
    match Event::from_message(message("exited", Some(obj(vec![("exitCode", JsonValue::Number(42))])))) {
        Event::Exited(b) => assert_eq!(b.exit_code, 42),
        other => panic!("unexpected {:?}", other),
    }
    match Event::from_message(message("exited", Some(obj(vec![("exitCode", JsonValue::Number(1 << 40))])))) {
        Event::Exited(b) => assert_eq!(b.exit_code, 0),
        other => panic!("unexpected {:?}", other),
    }
    assert!(matches!(Event::from_message(message("terminated", None)), Event::Terminated(None)));
    assert!(matches!(
        Event::from_message(message("terminated", Some(obj(vec![])))),
        Event::Terminated(Some(t)) if !t.restart
    ));
    assert!(matches!(Event::from_message(message("initialized", None)), Event::Initialized));
}

#[test]
fn output_thread_and_breakpoint_events() {
    let out = obj(vec![
        ("category", JsonValue::Str("stdout".to_string())),
        ("output", JsonValue::Str("hi\n".to_string())),
        ("source", obj(vec![("path", JsonValue::Str("/a.c".to_string()))])),
    ]);
    match Event::from_message(message("output", Some(out))) {
        Event::Output(o) => {
            assert_eq!(o.output, "hi\n");
            assert_eq!(o.source.unwrap().path, Some("/a.c".to_string()));
        }
        other => panic!("unexpected {:?}", other),
    }
    let thread = obj(vec![("reason", JsonValue::Str("started".to_string())), ("threadId", JsonValue::Number(2))]);
    assert!(matches!(Event::from_message(message("thread", Some(thread))), Event::Thread(t) if t.thread_id == 2));
    let bp = obj(vec![("breakpoint", obj(vec![("verified", JsonValue::Bool(true)), ("line", JsonValue::Number(7))]))]);
    match Event::from_message(message("breakpoint", Some(bp))) {
        Event::Breakpoint { reason, breakpoint } => {
            assert_eq!(reason, "unknown");
            assert!(breakpoint.verified);
            assert_eq!(breakpoint.line, Some(7));
        }
        other => panic!("unexpected {:?}", other),
    }
    assert!(matches!(Event::from_message(message("module", None)), Event::Unknown { .. }));
}

#[test]
fn initialize_defaults() {
    let a = InitializeArguments::default();
    assert_eq!(a.client_id, Some("debugger-cli".to_string()));
    assert_eq!(a.adapter_id, "lldb-dap");
    assert!(a.supports_memory_references);
    assert!(!a.supports_progress_reporting);
}
