use debugger::setup::detector::{debuggers_for_project, detect_project_types, ProjectType};
use debugger::setup::adapters::gdb_common::{is_gdb_version_sufficient, parse_gdb_version};
use debugger::setup::install::{install_step, InstallAction, InstallEvent, SetupOptions, SetupStatus};
use debugger::setup::installer::{arch_str, platform_str, GitHubAsset, GitHubRelease, InstallResult, InstallStatus, PackageManager};
use debugger::setup::probe::{header_line, initialize_outcome, initialize_request, HeaderLine};
use debugger::setup::registry::{
    all_debuggers, debuggers_for_language, get_debugger, get_installer, primary_debugger_for_language, InstallerKind, Platform,
};
use debugger::json::JsonValue;

#[test]
fn test_all_debuggers_has_entries() {
    assert!(!all_debuggers().is_empty());
}

#[test]
fn test_get_debugger() {
    assert!(get_debugger("lldb").is_some());
    assert!(get_debugger("nonexistent").is_none());
}

#[test]
fn test_debuggers_for_language() {
    let rust_debuggers = debuggers_for_language("rust");
    assert!(!rust_debuggers.is_empty());
}

#[test]
fn test_debuggers_for_rust() {
    let debuggers = debuggers_for_project(&ProjectType::Rust);
    assert!(debuggers.contains(&"codelldb"));
}

#[test]
fn test_detect_rust_project() {
    let types = detect_project_types(&["Cargo.toml".to_string()]);
    assert!(types.contains(&ProjectType::Rust));
}

#[test]
fn test_detect_python_project() {
    let types = detect_project_types(&["requirements.txt".to_string()]);
    assert!(types.contains(&ProjectType::Python));
}

#[test]
fn registry_lookups() {
    let all = all_debuggers();
    assert_eq!(all.len(), 7);
    assert_eq!(all[0].id, "gdb");
    let ids: Vec<&str> = debuggers_for_language("c").iter().map(|d| d.id).collect();
    assert_eq!(ids, vec!["gdb", "cuda-gdb", "lldb", "codelldb"]);
    assert_eq!(primary_debugger_for_language("rust").unwrap().id, "lldb");
    assert_eq!(primary_debugger_for_language("python").unwrap().name, "debugpy");
    assert!(primary_debugger_for_language("cobol").is_none());
    assert_eq!(get_debugger("go").unwrap().name, "Delve");
    assert_eq!(get_installer("js-debug"), Some(InstallerKind::JsDebug));
    assert_eq!(get_installer("python"), Some(InstallerKind::Debugpy));
    assert_eq!(get_installer("rust"), None);
}

#[test]
fn platforms() {
    assert_eq!(Platform::current("macos"), Platform::MacOS);
    assert_eq!(Platform::current("freebsd"), Platform::Linux);
    assert_eq!(Platform::Windows.as_str(), "windows");
    assert_eq!(platform_str(Platform::MacOS), "darwin");
    assert_eq!(arch_str("x86"), "i686");
    assert_eq!(arch_str("aarch64"), "aarch64");
    assert_eq!(arch_str("riscv64"), "unknown");
}

#[test]
fn detection_rules() {
    let names = |v: &[&str]| v.iter().map(|s| s.to_string()).collect::<Vec<String>>();
    assert_eq!(detect_project_types(&names(&["Makefile", "main.c"])), vec![ProjectType::C]);
    assert_eq!(detect_project_types(&names(&["Makefile", "main.c", "x.hpp"])), vec![ProjectType::Cpp]);
    assert_eq!(detect_project_types(&names(&["CMakeLists.txt"])), vec![ProjectType::Cpp]);
    assert_eq!(
        detect_project_types(&names(&["package.json", "tsconfig.json", "kernel.cu", "go.sum"])),
        vec![ProjectType::Cuda, ProjectType::Go, ProjectType::TypeScript]
    );
    assert_eq!(detect_project_types(&names(&["package.json", "app.sln", "pom.xml"])), vec![
        ProjectType::JavaScript,
        ProjectType::CSharp,
        ProjectType::Java
    ]);
    assert_eq!(detect_project_types(&names(&[".cu", ".."])), Vec::<ProjectType>::new());
    assert!(debuggers_for_project(&ProjectType::Java).is_empty());
    assert_eq!(debuggers_for_project(&ProjectType::Cpp), vec!["lldb", "codelldb"]);
}

#[test]
fn gdb_versions() {
    assert_eq!(parse_gdb_version("GNU gdb (GDB) 14.2\nCopyright"), Some("14.2".to_string()));
    assert_eq!(parse_gdb_version("exec: /usr/bin/gdb\nNVIDIA (R) CUDA Debugger\nGNU gdb 13.2\n"), Some("13.2".to_string()));
    assert_eq!(parse_gdb_version("exec: /usr/bin/gdb\nGNU gdb (GDB) 13.2\n"), Some("13.2".to_string()));
    assert_eq!(
        parse_gdb_version("exec: /usr/local/cuda/bin/cuda-gdb\nGNU gdb (GDB) 13.2"),
        Some("13.2".to_string())
    );
    assert_eq!(parse_gdb_version("GNU gdb (GDB) Fedora Linux 14.2-1.fc40"), Some("14.2-1.fc40".to_string()));
    assert_eq!(parse_gdb_version("lldb version 17.0.6"), Some("17.0.6".to_string()));
    assert_eq!(parse_gdb_version("no version here"), None);
    assert!(is_gdb_version_sufficient("14.1"));
    assert!(is_gdb_version_sufficient("15.0.50"));
    assert!(!is_gdb_version_sufficient("14.0"));
    assert!(!is_gdb_version_sufficient("14"));
    assert!(!is_gdb_version_sufficient("x.y"));
}

#[test]
fn package_manager_commands() {
    assert_eq!(PackageManager::Apt.install_command("lldb"), "sudo apt install -y lldb");
    assert_eq!(PackageManager::Pacman.install_command("gdb"), "sudo pacman -S --noconfirm gdb");
    assert_eq!(PackageManager::Pip.install_command("debugpy"), "pip3 install debugpy");
    assert_eq!(
        PackageManager::from_found(&[false, true, false, true, false, false, true, false, true]),
        vec![PackageManager::Dnf, PackageManager::Homebrew, PackageManager::Cargo, PackageManager::Go]
    );
}

#[test]
fn release_assets() {
    let asset = |n: &str| GitHubAsset { name: n.to_string(), browser_download_url: format!("https://x/{}", n), size: 1 };
    let release = GitHubRelease {
        tag_name: "v1".to_string(),
        name: None,
        assets: vec![asset("codelldb-Linux-x86_64.vsix"), asset("codelldb-darwin-arm64.vsix")],
    };
    assert_eq!(release.find_asset(&["*darwin*arm64*"]).unwrap().name, "codelldb-darwin-arm64.vsix");
    assert_eq!(release.find_asset(&["windows", "LINUX*X86_64"]).unwrap().name, "codelldb-Linux-x86_64.vsix");
    assert!(release.find_asset(&["windows"]).is_none());
}

fn options(force: bool, dry_run: bool) -> SetupOptions {
    SetupOptions {
        debugger: Some("lldb".to_string()),
        version: Some("18".to_string()),
        list: false,
        check: false,
        auto_detect: false,
        uninstall: false,
        path: false,
        force,
        dry_run,
        json: false,
    }
}

#[test]
fn installation_steps() {
    let langs = vec!["c".to_string()];
    match install_step("foo", &options(false, false), &langs, InstallEvent::NoInstaller) {
        InstallAction::Report(r) => {
            assert_eq!(r.status, SetupStatus::NotFound);
            assert_eq!(r.message, Some("Unknown debugger: foo".to_string()));
        }
        other => panic!("unexpected {:?}", other),
    }
    let installed = InstallStatus::Installed { path: "/usr/bin/lldb-dap".to_string(), version: Some("18".to_string()) };
    match install_step("lldb", &options(false, false), &langs, InstallEvent::Status(installed)) {
        InstallAction::Report(r) => {
            assert_eq!(r.status, SetupStatus::AlreadyInstalled);
            assert_eq!(r.path, Some("/usr/bin/lldb-dap".to_string()));
            assert_eq!(r.languages, Some(vec!["c".to_string()]));
        }
        other => panic!("unexpected {:?}", other),
    }
    assert!(matches!(
        install_step("lldb", &options(false, true), &langs, InstallEvent::Status(InstallStatus::NotInstalled)),
        InstallAction::QueryMethod
    ));
    match install_step("lldb", &options(true, false), &langs, InstallEvent::Status(InstallStatus::NotInstalled)) {
        InstallAction::Install(o) => {
            assert!(o.force);
            assert_eq!(o.version, Some("18".to_string()));
        }
        other => panic!("unexpected {:?}", other),
    }
    let done = InstallResult { path: "/a/lldb-dap".to_string(), version: None, args: vec![] };
    match install_step("lldb", &options(false, false), &langs, InstallEvent::Installed(done)) {
        InstallAction::Report(r) => assert_eq!(r.status, SetupStatus::Success),
        other => panic!("unexpected {:?}", other),
    }
    match install_step("lldb", &options(false, true), &langs, InstallEvent::Method("Ok(X)".to_string())) {
        InstallAction::Report(r) => {
            assert_eq!(r.status, SetupStatus::DryRun);
            assert_eq!(r.message, Some("Method: Ok(X)".to_string()));
        }
        other => panic!("unexpected {:?}", other),
    }
}

fn obj(entries: Vec<(&str, JsonValue)>) -> JsonValue {
    JsonValue::Object(entries.into_iter().map(|(k, v)| (k.to_string(), v)).collect())
}

#[test]
fn initialize_answers() {
    let ok = obj(vec![
        ("success", JsonValue::Bool(true)),
        ("body", obj(vec![("supportsFunctionBreakpoints", JsonValue::Bool(true))])),
    ]);
    let caps = initialize_outcome(ok).unwrap();
    assert!(caps.supports_function_breakpoints);
    assert!(!caps.supports_configuration_done_request);
    let bad = obj(vec![("success", JsonValue::Bool(false)), ("message", JsonValue::Str("nope".to_string()))]);
    match initialize_outcome(bad) {
        Err(debugger::common::Error::Internal(m)) => assert_eq!(m, "Initialize failed: nope"),
        other => panic!("unexpected {:?}", other),
    }
    match initialize_request() {
        JsonValue::Object(e) => {
            assert_eq!(e.len(), 4);
            assert_eq!(e[2].0, "command");
        }
        _ => panic!("expected an object"),
    }
    assert_eq!(header_line("\r\n"), HeaderLine::End);
    assert_eq!(header_line("Content-Length: 42\r\n"), HeaderLine::Length(Some(42)));
    assert_eq!(header_line("Content-Type: json"), HeaderLine::Other);
}
