use debugger::common::Error;
use debugger::json::JsonValue;
use debugger::setup::adapters::codelldb::CodeLldbInstaller;
use debugger::setup::adapters::cuda_gdb::CudaGdbInstaller;
use debugger::setup::adapters::debugpy::DebugpyInstaller;
use debugger::setup::adapters::delve::DelveInstaller;
use debugger::setup::adapters::gdb::GdbInstaller;
use debugger::setup::adapters::js_debug::JsDebugInstaller;
use debugger::setup::adapters::lldb::LldbInstaller;
use debugger::setup::adapters::{binary_name, trim_leading, verify_plan, VerifyPlan};
use debugger::setup::installer::Installer;
use debugger::setup::installer::{no_release_error, GitHubAsset, InstallMethod, InstallStatus, PackageManager};
use debugger::setup::registry::Platform;

fn internal(e: Error) -> String {
    match e {
        Error::Internal(m) => m,
        other => panic!("unexpected error {:?}", other),
    }
}

#[test]
fn gdb_status_by_version() {
    let g = GdbInstaller;
    assert_eq!(g.info().id, "gdb");
    match g.status(Some("/usr/bin/gdb".into()), Some("14.2".into())) {
        InstallStatus::Installed { path, version } => {
            assert_eq!(path, "/usr/bin/gdb");
            assert_eq!(version.as_deref(), Some("14.2"));
        }
        other => panic!("{:?}", other),
    }
    match g.status(Some("/usr/bin/gdb".into()), Some("12.1".into())) {
        InstallStatus::Broken { reason, .. } => {
            assert_eq!(reason, "GDB version 12.1 found, but ≥14.1 required for native DAP support")
        }
        other => panic!("{:?}", other),
    }
    assert!(matches!(g.status(None, None), InstallStatus::NotInstalled));
    match g.best_method(Some("/usr/bin/gdb".into()), Some("13.0".into())) {
        InstallMethod::NotSupported { reason } => {
            assert_eq!(reason, "GDB ≥14.1 not found. Install via your system package manager.");
            let e = g.install(InstallMethod::NotSupported { reason }, None).unwrap_err();
            assert_eq!(internal(e), "Cannot install GDB: GDB ≥14.1 not found. Install via your system package manager.");
        }
        other => panic!("{:?}", other),
    }
    let r = g.install(InstallMethod::AlreadyInstalled { path: "/x/gdb".into() }, Some("15.0".into())).unwrap();
    assert_eq!(r.args, vec!["-i=dap".to_string()]);
}

#[test]
fn lldb_methods_by_platform() {
    let l = LldbInstaller;
    assert_eq!(l.info().name, "lldb-dap");
    match l.best_method(None, None, Platform::Linux, &[PackageManager::Dnf, PackageManager::Pacman], false) {
        InstallMethod::PackageManager { manager, package } => {
            assert_eq!(manager, PackageManager::Dnf);
            assert_eq!(package, "lldb");
        }
        other => panic!("{:?}", other),
    }
    match l.best_method(None, None, Platform::Linux, &[], false) {
        InstallMethod::GitHubRelease { repo, asset_pattern } => {
            assert_eq!(repo, "llvm/llvm-project");
            assert_eq!(asset_pattern, "LLVM-*-Linux-*.tar.xz");
        }
        other => panic!("{:?}", other),
    }
    match l.best_method(None, None, Platform::MacOS, &[], true) {
        InstallMethod::AlreadyInstalled { path } => assert_eq!(path, "/usr/bin/lldb-dap"),
        other => panic!("{:?}", other),
    }
    match l.best_method(None, Some("/b/lldb-vscode".into()), Platform::Windows, &[], false) {
        InstallMethod::AlreadyInstalled { path } => assert_eq!(path, "/b/lldb-vscode"),
        other => panic!("{:?}", other),
    }
    assert!(matches!(l.best_method(None, None, Platform::Windows, &[], false), InstallMethod::NotSupported { .. }));
    assert_eq!(l.version_from_output("lldb version 17.0.6\nmore"), Some("17.0.6".to_string()));
    assert_eq!(l.version_from_output(""), None);
    assert_eq!(
        l.asset_patterns("x86_64", "linux"),
        vec!["LLVM-*-x86_64-linux.tar.xz".to_string(), "clang+llvm-*-x86_64-*linux.tar.xz".to_string()]
    );
    let dirs = vec!["other".to_string(), "clang+llvm-17".to_string(), "LLVM-18".to_string()];
    assert_eq!(l.extracted_dir(&dirs).unwrap(), 2);
    assert_eq!(internal(l.extracted_dir(&["x".to_string()]).unwrap_err()), "Could not find extracted LLVM directory");
}

#[test]
fn codelldb_patterns_and_libraries() {
    let c = CodeLldbInstaller;
    assert!(!c.info().primary);
    assert_eq!(
        c.asset_patterns("aarch64", "darwin"),
        vec!["codelldb-aarch64-darwin.vsix".to_string(), "codelldb-aarch64-darwin-*.vsix".to_string()]
    );
    assert_eq!(c.version_of_tag("v1.10.0"), "1.10.0");
    assert!(c.is_shared_library("libcodelldb.so"));
    assert!(c.is_shared_library("liblldb.dylib"));
    assert!(!c.is_shared_library(".so"));
    assert!(!c.is_shared_library("liblldb.so.1"));
}

#[test]
fn delve_commands_and_versions() {
    let d = DelveInstaller;
    match d.best_method(None, &[PackageManager::Go], "linux") {
        InstallMethod::LanguagePackage { tool, package } => {
            assert_eq!(tool, "go");
            assert_eq!(package, "github.com/go-delve/delve/cmd/dlv@latest");
        }
        other => panic!("{:?}", other),
    }
    match d.best_method(None, &[], "darwin") {
        InstallMethod::GitHubRelease { asset_pattern, .. } => assert_eq!(asset_pattern, "delve_*_darwin_*.tar.gz"),
        other => panic!("{:?}", other),
    }
    assert_eq!(
        d.go_install_command("go", "pkg", Some("v1.22.0".into())),
        "go install github.com/go-delve/delve/cmd/dlv@v1.22.0"
    );
    assert_eq!(d.go_install_command("go", "pkg", None), "go install pkg");
    assert_eq!(d.version_from_output("Delve Debugger\nVersion: 1.22.1\nBuild: x"), Some("1.22.1".to_string()));
    assert_eq!(
        d.asset_patterns("linux", "x86_64"),
        vec!["delve_linux_amd64.tar.gz".to_string(), "delve_*_linux_amd64.tar.gz".to_string()]
    );
}

#[test]
fn debugpy_paths_and_status() {
    let p = DebugpyInstaller;
    assert_eq!(p.venv_python("/a/venv", false), "/a/venv/bin/python");
    assert_eq!(p.venv_pip("/a/venv", true), "/a/venv/Scripts/pip.exe");
    assert_eq!(p.package_spec(&Some("1.8.0".into())), "debugpy==1.8.0");
    match p.status(Some(("/a/venv/bin/python".into(), Some("1.8.0\n".into()))), None) {
        InstallStatus::Installed { version, .. } => assert_eq!(version.as_deref(), Some("1.8.0")),
        other => panic!("{:?}", other),
    }
    match p.status(Some(("/a/venv/bin/python".into(), None)), None) {
        InstallStatus::Broken { reason, .. } => assert_eq!(reason, "debugpy module not found in venv"),
        other => panic!("{:?}", other),
    }
    assert_eq!(internal(p.best_method(None).unwrap_err()), "Python 3.7+ not found. Please install Python first.");
}

#[test]
fn js_debug_scripts_and_versions() {
    let j = JsDebugInstaller;
    assert_eq!(j.dap_executable("/d", false), "/d/node_modules/js-debug/dist/src/dapDebugServer.js");
    assert_eq!(j.package_spec(&Some("1.2.3".into())), "js-debug@1.2.3");
    let pkg = JsonValue::Object(vec![("version".to_string(), JsonValue::Str("1.90.0".to_string()))]);
    assert_eq!(j.package_version(&pkg), Some("1.90.0".to_string()));
    let r = j.install_result(Some("/d/x.js".into()), None).unwrap();
    assert_eq!(r.args, vec!["--port={{port}}".to_string()]);
    assert!(j.best_method(false).is_err());
}

#[test]
fn cuda_gdb_choices() {
    let c = CudaGdbInstaller;
    assert!(c.has_native_dap_support(&Some("14.2".into()), &Some(String::new())));
    assert!(!c.has_native_dap_support(&Some("14.2".into()), &Some("Interpreter `dap' unrecognized".into())));
    assert!(!c.has_native_dap_support(&Some("12.1".into()), &Some(String::new())));
    let versions = vec!["12.4".to_string(), "13.1".to_string(), "13.0".to_string(), "13.1".to_string()];
    assert_eq!(c.newest_install(&versions), Some(1));
    assert_eq!(c.newest_install(&[]), None);
    assert_eq!(c.bridge_config("/usr/local/cuda/bin/cuda-gdb"), "--config={\"gdb\":\"/usr/local/cuda/bin/cuda-gdb\"}");
    match c.best_method(true, Some("/c".into()), false, None) {
        InstallMethod::NotSupported { reason } => assert!(reason.starts_with("cuda-gdb lacks native DAP support")),
        other => panic!("{:?}", other),
    }
    let r = c.install(InstallMethod::AlreadyInstalled { path: "/bridge".into() }, Some("/c".into()), None, false).unwrap();
    assert_eq!(r.path, "/bridge");
    assert_eq!(r.args, vec!["--config={\"gdb\":\"/c\"}".to_string()]);
    assert_eq!(c.locate(None, false, true, None, None), Some("/opt/cuda/bin/cuda-gdb".to_string()));
    assert_eq!(
        c.bridge_candidates(Some("/h".into()), &["/h/.nvm/versions/node/v20".to_string()]),
        vec![
            "/h/.nvm/versions/node/v20/bin/cdtDebugAdapter".to_string(),
            "/h/.npm-global/bin/cdtDebugAdapter".to_string(),
            "/h/node_modules/.bin/cdtDebugAdapter".to_string(),
            "/usr/local/bin/cdtDebugAdapter".to_string(),
        ]
    );
}

#[test]
fn shared_installer_helpers() {
    assert_eq!(binary_name("dlv", true), "dlv.exe");
    assert_eq!(trim_leading("vv1.0", 'v'), "1.0");
    match verify_plan(InstallStatus::NotInstalled) {
        VerifyPlan::Done(v) => assert_eq!(v.error.as_deref(), Some("Not installed")),
        other => panic!("{:?}", other),
    }
    let assets = vec![GitHubAsset { name: "a.zip".into(), browser_download_url: "u".into(), size: 1 }];
    assert_eq!(
        internal(no_release_error("Delve", "x86_64", "linux", &assets)),
        "No Delve release found for x86_64 linux. Available assets: [\"a.zip\"]"
    );
}
