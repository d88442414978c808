use debugger::common::config::Config;
use debugger::common::error::IpcError;
use debugger::common::Error;
use debugger::daemon::server::Daemon;
use debugger::ipc::client::{ping_outcome, response_outcome, RequestIds};
use debugger::ipc::protocol::Response;
use debugger::json::JsonValue;
use debugger::setup::installer::{status_label, status_mark, status_path, InstallStatus};
use debugger::tutorial::fibonacci;

#[test]
fn tutorial_fibonacci_gives_the_nth_number() {
    assert_eq!(fibonacci(0), 0);
    assert_eq!(fibonacci(1), 1);
    assert_eq!(fibonacci(2), 1);
    assert_eq!(fibonacci(10), 55);
    assert_eq!(fibonacci(14), 377);
}

#[test]
fn client_reads_responses() {
    let ok = Response { id: 3, success: true, result: Some(JsonValue::Number(5)), error: None };
    assert_eq!(response_outcome(3, ok).unwrap(), JsonValue::Number(5));
    let empty = Response { id: 3, success: true, result: None, error: None };
    assert_eq!(response_outcome(3, empty).unwrap(), JsonValue::Object(vec![]));
    let other = Response { id: 4, success: true, result: None, error: None };
    match response_outcome(3, other) {
        Err(Error::DaemonCommunication(m)) => assert_eq!(m, "Response ID mismatch: expected 3, got 4"),
        r => panic!("{:?}", r),
    }
    let failed = Response {
        id: 3,
        success: false,
        result: None,
        error: Some(IpcError { code: "SESSION_NOT_ACTIVE".into(), message: "x".into() }),
    };
    assert!(matches!(response_outcome(3, failed), Err(Error::SessionNotActive)));
    let unknown = Response { id: 3, success: false, result: None, error: None };
    assert!(response_outcome(3, unknown).is_err());
    assert_eq!(ping_outcome(Err(Error::DaemonNotRunning)).unwrap(), false);
    assert_eq!(ping_outcome(Ok(JsonValue::Null)).unwrap(), true);
    let mut ids = RequestIds::new();
    assert_eq!(ids.take(), 1);
    assert_eq!(ids.take(), 2);
}

#[test]
fn daemon_idle_timeout() {
    let d = Daemon::new(Config::default());
    assert_eq!(d.idle_timeout_secs(), 1800);
    assert!(!d.should_stop(false, 1800, 0, false));
    assert!(d.should_stop(false, 1800, 1, false));
    assert!(!d.should_stop(true, 5000, 0, false));
    assert!(d.should_stop(true, 0, 0, true));
}

#[test]
fn debugger_list_labels() {
    let installed = Some(InstallStatus::Installed { path: "/p".into(), version: Some("1.0".into()) });
    assert_eq!(status_label(&installed), "installed (1.0)");
    assert_eq!(status_mark(&installed), "✓");
    assert_eq!(status_path(&installed), Some("/p".to_string()));
    let broken = Some(InstallStatus::Broken { path: "/q".into(), reason: "old".into() });
    assert_eq!(status_label(&broken), "broken: old");
    assert_eq!(status_mark(&broken), "✗");
    assert_eq!(status_label(&None), "not installed");
    assert_eq!(status_mark(&Some(InstallStatus::NotInstalled)), " ");
}
