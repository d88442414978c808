use debugger::common::config_file::config_with_adapter;
use debugger::common::Error;

fn parsed(text: &str) -> toml::Table {
    text.parse::<toml::Table>().expect("written configuration parses")
}

#[test]
fn adapter_recorded_in_empty_config() {
    let out = config_with_adapter("", "/cfg/config.toml", "lldb", "/usr/bin/lldb-dap", &vec![])
        .unwrap()
        .unwrap();
    let doc = parsed(&out);
    let entry = doc["adapters"]["lldb"].as_table().unwrap();
    assert_eq!(entry["path"].as_str(), Some("/usr/bin/lldb-dap"));
    assert!(!entry.contains_key("args"));
    assert_eq!(entry.len(), 1);
}

#[test]
fn adapter_args_recorded_when_present() {
    let args = vec!["--port".to_string(), "0".to_string()];
    let out = config_with_adapter("", "c.toml", "codelldb", "/opt/codelldb", &args).unwrap().unwrap();
    let doc = parsed(&out);
    let entry = doc["adapters"]["codelldb"].as_table().unwrap();
    let got: Vec<&str> = entry["args"].as_array().unwrap().iter().map(|v| v.as_str().unwrap()).collect();
    assert_eq!(got, vec!["--port", "0"]);
}

#[test]
fn adapter_recording_keeps_other_entries() {
    let content = "[defaults]\ntimeout = 30\n\n[adapters.gdb]\npath = \"/usr/bin/gdb\"\n";
    let out = config_with_adapter(content, "c.toml", "lldb", "/usr/bin/lldb-dap", &vec![]).unwrap().unwrap();
    let doc = parsed(&out);
    assert_eq!(doc["defaults"]["timeout"].as_integer(), Some(30));
    assert_eq!(doc["adapters"]["gdb"]["path"].as_str(), Some("/usr/bin/gdb"));
    assert_eq!(doc["adapters"]["lldb"]["path"].as_str(), Some("/usr/bin/lldb-dap"));
}

#[test]
fn adapter_recording_replaces_same_name() {
    let content = "[adapters.lldb]\npath = \"/old\"\nargs = [\"-x\"]\n";
    let out = config_with_adapter(content, "c.toml", "lldb", "/new", &vec![]).unwrap().unwrap();
    let doc = parsed(&out);
    let entry = doc["adapters"]["lldb"].as_table().unwrap();
    assert_eq!(entry["path"].as_str(), Some("/new"));
    assert!(!entry.contains_key("args"));
}

#[test]
fn unparsable_config_is_config_parse_error() {
    let r = config_with_adapter("not = = toml", "/cfg/config.toml", "lldb", "/x", &vec![]);
    match r {
        Err(Error::ConfigParse(m)) => assert!(m.starts_with("Failed to parse /cfg/config.toml: "), "{}", m),
        _ => panic!("expected a parse error"),
    }
}

#[test]
fn non_table_adapters_gives_none() {
    let r = config_with_adapter("adapters = 5\n", "c.toml", "lldb", "/x", &vec![]);
    assert!(matches!(r, Ok(None)));
}
