//! Microsoft's js-debug, installed with npm.

use crate::common::Error;
use crate::json::JsonValue;
use crate::setup::adapters::{one_arg, texts};
use crate::setup::installer::{InstallMethod, InstallResult, InstallStatus};
use crate::setup::registry::{DebuggerInfo, DebuggerView, Platform};
use vstd::prelude::*;

verus! {

/// The installer of js-debug.
pub struct JsDebugInstaller;

/// What the js-debug installer says of it.
pub open spec fn js_debug_view() -> DebuggerView {
    DebuggerView {
        id: "js-debug"@,
        name: "js-debug"@,
        languages: seq!["javascript"@, "typescript"@],
        platforms: seq![Platform::Linux, Platform::MacOS, Platform::Windows],
        description: "Microsoft's JavaScript/TypeScript debugger"@,
        primary: true,
    }
}

/// Where the DAP server script sits in an installation: under `src` when
/// that copy exists, else under `dist/src`.
pub open spec fn dap_script(adapter_dir: Seq<char>, src_exists: bool) -> Seq<char> {
    if src_exists {
        crate::common::paths::path_join(adapter_dir, "node_modules/js-debug/src/dapDebugServer.js"@)
    } else {
        crate::common::paths::path_join(adapter_dir, "node_modules/js-debug/dist/src/dapDebugServer.js"@)
    }
}

impl crate::setup::installer::Installer for JsDebugInstaller {
    /// The debugger this installer installs.
    fn info(&self) -> (r: DebuggerInfo)
        ensures
            r@ == js_debug_view(),
    {
        let d = crate::setup::registry::entry(
            "js-debug",
            "js-debug",
            vec!["javascript", "typescript"],
            vec![Platform::Linux, Platform::MacOS, Platform::Windows],
            "Microsoft's JavaScript/TypeScript debugger",
            true,
        );
        proof {
            assert(d@.languages =~= js_debug_view().languages);
            assert(d@.platforms =~= js_debug_view().platforms);
        }
        d
    }
}

impl JsDebugInstaller {
    /// The state of js-debug: installed when its server script exists,
    /// with the version its package names.
    pub fn status(&self, script: Option<String>, version: Option<String>) -> (r: InstallStatus)
        ensures
            match script {
                Some(p) => r == (InstallStatus::Installed { path: p, version }),
                None => r == InstallStatus::NotInstalled,
            },
    {
        match script {
            Some(p) => InstallStatus::Installed { path: p, version },
            None => InstallStatus::NotInstalled,
        }
    }

    /// How to get js-debug: with npm, which must be there.
    pub fn best_method(&self, npm_found: bool) -> (r: Result<InstallMethod, Error>)
        ensures
            npm_found ==> (r matches Ok(InstallMethod::LanguagePackage { tool, package }) && tool@ == "npm"@
                && package@ == "js-debug"@),
            !npm_found ==> (r matches Err(Error::Internal(m)) && m@
                == "npm not found. Please install Node.js and npm first."@),
    {
        if !npm_found {
            return Err(Error::Internal(String::from_str("npm not found. Please install Node.js and npm first.")));
        }
        Ok(InstallMethod::LanguagePackage { tool: String::from_str("npm"), package: String::from_str("js-debug") })
    }

    /// The DAP server script of an installation.
    pub fn dap_executable(&self, adapter_dir: &str, src_exists: bool) -> (r: String)
        ensures
            r@ == dap_script(adapter_dir@, src_exists),
    {
        if src_exists {
            crate::common::paths::join_path(adapter_dir, "node_modules/js-debug/src/dapDebugServer.js")
        } else {
            crate::common::paths::join_path(adapter_dir, "node_modules/js-debug/dist/src/dapDebugServer.js")
        }
    }

    /// The version a parsed `package.json` names.
    pub fn package_version(&self, package: &JsonValue) -> (r: Option<String>)
        ensures
            match crate::json::member(*package, "version"@) {
                Some(JsonValue::Str(s)) => r == Some(s),
                _ => r is None,
            },
    {
        crate::json::get_str(package, "version")
    }

    /// The package npm installs: js-debug, at the requested version.
    pub fn package_spec(&self, version: &Option<String>) -> (r: String)
        ensures
            r@ == match version {
                Some(v) => "js-debug@"@ + v@,
                None => "js-debug"@,
            },
    {
        match version {
            Some(v) => {
                let mut m = crate::text::chars_of("js-debug@");
                crate::text::append_str(&mut m, v.as_str());
                crate::text::string_from(m.as_slice())
            },
            None => String::from_str("js-debug"),
        }
    }

    /// What an installation gives: the server script, its version, and the
    /// port argument the adapter is started with; an error when npm left no
    /// script.
    pub fn install_result(&self, script: Option<String>, version: Option<String>) -> (r: Result<
        InstallResult,
        Error,
    >)
        ensures
            match script {
                Some(p) => r matches Ok(res) && res.path == p && res.version == version && texts(res.args@)
                    == seq!["--port={{port}}"@],
                None => r matches Err(Error::Internal(m)) && m@
                    == "js-debug installation succeeded but dapDebugServer.js not found"@,
            },
    {
        match script {
            Some(p) => Ok(InstallResult { path: p, version, args: one_arg("--port={{port}}") }),
            None => Err(
                Error::Internal(
                    String::from_str("js-debug installation succeeded but dapDebugServer.js not found"),
                ),
            ),
        }
    }
}

} // verus!
