use debugger::common::config::{adapter_on_path, adapter_type_for, AdapterConfig, AdapterType, Config};
use debugger::common::error::IpcError;
use debugger::common::logging::daemon_log_in;
use debugger::common::paths::{config_dir, config_path_in, join_path, log_dir_in, socket_name, socket_path};
use debugger::common::{parse_listen_address, Error};

#[test]
fn test_socket_path_is_valid() {
    let path = socket_path(None, 1000);
    assert!(!path.is_empty());
    assert_eq!(path, "/tmp/debugger-cli-1000/daemon.sock");
    assert_eq!(socket_path(Some("/run/user/1000"), 1000), "/run/user/1000/debugger-cli/daemon.sock");
    assert_eq!(socket_name(Some("/run/"), 5), "/run/debugger-cli/daemon.sock");
}

#[test]
fn test_config_dir_is_valid() {
    let dir = config_dir();
    assert!(dir.is_some());
}

#[test]
fn path_joins() {
    assert_eq!(join_path("", "a"), "a");
    assert_eq!(join_path("/x/", "a"), "/x/a");
    assert_eq!(join_path("/x", "a"), "/x/a");
}

#[test]
fn listen_addresses() {
    assert_eq!(parse_listen_address("DAP server listening at: 127.0.0.1:4711\n"), Some("127.0.0.1:4711".to_string()));
    assert_eq!(parse_listen_address("listening at: [::]:38697"), Some("127.0.0.1:38697".to_string()));
    assert_eq!(parse_listen_address("starting"), None);
}

#[test]
fn config_defaults_and_adapters() {
    let mut config = Config::default();
    assert_eq!(config.defaults.adapter, "lldb-dap");
    assert_eq!(config.timeouts.await_default_secs, 300);
    assert_eq!(config.output.max_events, 10_000);
    config.adapters.push((
        "mine".to_string(),
        AdapterConfig { path: "/opt/mine".to_string(), args: vec!["--dap".to_string()], adapter_type: AdapterType::Generic },
    ));
    let found = config.get_adapter("mine").unwrap();
    assert_eq!(found.path, "/opt/mine");
    assert_eq!(found.args, vec!["--dap".to_string()]);
    assert_eq!(adapter_type_for("lldb-vscode"), AdapterType::LldbDap);
    assert_eq!(adapter_type_for("debugpy-adapter"), AdapterType::Debugpy);
    assert_eq!(adapter_type_for("dlv"), AdapterType::Generic);
    let c = adapter_on_path("codelldb", "/usr/bin/codelldb".to_string());
    assert_eq!(c.adapter_type, AdapterType::Codelldb);
    assert!(c.args.is_empty());
}

#[test]
fn errors_cross_ipc_and_back() {
    let e = Error::BreakpointNotFound { id: 7 };
    let ipc = IpcError::from_error(&e);
    assert_eq!(ipc.code, "BREAKPOINT_NOT_FOUND");
    assert_eq!(ipc.message, e.message());
    let back = ipc.into_error();
    assert_eq!(back.message(), "Daemon communication error: Breakpoint 7 not found");
    assert!(matches!(IpcError::from_error(&Error::SessionNotActive).into_error(), Error::SessionNotActive));
    assert_eq!(Error::invalid_state("inspect", "running").message(), "Cannot inspect while program is running");
}

#[test]
fn paths_inside_the_platform_directories() {
    assert_eq!(
        config_path_in(Some("/home/u/.config/debugger-cli".to_string())),
        Some("/home/u/.config/debugger-cli/config.toml".to_string())
    );
    assert_eq!(config_path_in(None), None);
    assert_eq!(log_dir_in(Some("/d/".to_string())), Some("/d/logs".to_string()));
    assert_eq!(log_dir_in(None), None);
    assert_eq!(daemon_log_in(Some("/d".to_string())), Some("/d/logs/daemon.log".to_string()));
    assert_eq!(daemon_log_in(None), None);
}
