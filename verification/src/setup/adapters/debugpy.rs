//! debugpy, installed with pip into a virtual environment of its own.

use crate::common::Error;
use crate::setup::adapters::{texts, two_args};
use crate::setup::installer::{InstallMethod, InstallResult, InstallStatus};
use crate::setup::registry::{DebuggerInfo, DebuggerView, Platform};
use crate::text::trimmed;
use vstd::prelude::*;

verus! {

/// The installer of debugpy.
pub struct DebugpyInstaller;

/// What the debugpy installer says of it.
pub open spec fn debugpy_view() -> DebuggerView {
    DebuggerView {
        id: "python"@,
        name: "debugpy"@,
        languages: seq!["python"@],
        platforms: seq![Platform::Linux, Platform::MacOS, Platform::Windows],
        description: "Microsoft's Python debugger"@,
        primary: true,
    }
}

/// A program of a virtual environment: `Scripts/<windows_name>` on
/// Windows, `bin/<name>` elsewhere.
pub open spec fn venv_program(venv_dir: Seq<char>, windows_name: Seq<char>, name: Seq<char>, windows: bool) -> Seq<
    char,
> {
    if windows {
        crate::common::paths::path_join(crate::common::paths::path_join(venv_dir, "Scripts"@), windows_name)
    } else {
        crate::common::paths::path_join(crate::common::paths::path_join(venv_dir, "bin"@), name)
    }
}

/// Whether `r` is the installed state of `path` with the version printed
/// as `out`.
pub open spec fn installed_with_output(r: InstallStatus, path: String, out: String) -> bool {
    r matches InstallStatus::Installed { path: p, version: Some(v) } && p == path && v@ == trimmed(out@)
}

fn trimmed_string(s: &str) -> (r: String)
    ensures
        r@ == trimmed(s@),
{
    let cs = crate::text::chars_of(s);
    let t = crate::text::trim(cs.as_slice());
    crate::text::string_from(t.as_slice())
}

impl crate::setup::installer::Installer for DebugpyInstaller {
    /// The debugger this installer installs.
    fn info(&self) -> (r: DebuggerInfo)
        ensures
            r@ == debugpy_view(),
    {
        let d = crate::setup::registry::entry(
            "python",
            "debugpy",
            vec!["python"],
            vec![Platform::Linux, Platform::MacOS, Platform::Windows],
            "Microsoft's Python debugger",
            true,
        );
        proof {
            assert(d@.languages =~= debugpy_view().languages);
            assert(d@.platforms =~= debugpy_view().platforms);
        }
        d
    }
}

impl DebugpyInstaller {
    /// The state of debugpy. `venv` is the managed environment's Python
    /// with what printing debugpy's version gave (`None` when that failed);
    /// `global` the same for `python3` on the `PATH`.
    pub fn status(
        &self,
        venv: Option<(String, Option<String>)>,
        global: Option<(String, Option<String>)>,
    ) -> (r: InstallStatus)
        ensures
            match venv {
                Some((p, Some(out))) => installed_with_output(r, p, out),
                Some((p, None)) => r matches InstallStatus::Broken { path, reason } && path == p && reason@
                    == "debugpy module not found in venv"@,
                None => match global {
                    Some((p, Some(out))) => installed_with_output(r, p, out),
                    _ => r == InstallStatus::NotInstalled,
                },
            },
    {
        match venv {
            Some((p, Some(out))) => InstallStatus::Installed {
                path: p,
                version: Some(trimmed_string(out.as_str())),
            },
            Some((p, None)) => InstallStatus::Broken {
                path: p,
                reason: String::from_str("debugpy module not found in venv"),
            },
            None => match global {
                Some((p, Some(out))) => InstallStatus::Installed {
                    path: p,
                    version: Some(trimmed_string(out.as_str())),
                },
                _ => InstallStatus::NotInstalled,
            },
        }
    }

    /// How to get debugpy: with pip, through a Python 3.7 or later.
    pub fn best_method(&self, python: Option<String>) -> (r: Result<InstallMethod, Error>)
        ensures
            match python {
                Some(p) => r matches Ok(InstallMethod::LanguagePackage { tool, package }) && tool == p
                    && package@ == "debugpy"@,
                None => r matches Err(Error::Internal(m)) && m@
                    == "Python 3.7+ not found. Please install Python first."@,
            },
    {
        match python {
            Some(p) => Ok(InstallMethod::LanguagePackage { tool: p, package: String::from_str("debugpy") }),
            None => Err(Error::Internal(String::from_str("Python 3.7+ not found. Please install Python first."))),
        }
    }

    /// The Python of a virtual environment.
    pub fn venv_python(&self, venv_dir: &str, windows: bool) -> (r: String)
        ensures
            r@ == venv_program(venv_dir@, "python.exe"@, "python"@, windows),
    {
        if windows {
            let d = crate::common::paths::join_path(venv_dir, "Scripts");
            crate::common::paths::join_path(d.as_str(), "python.exe")
        } else {
            let d = crate::common::paths::join_path(venv_dir, "bin");
            crate::common::paths::join_path(d.as_str(), "python")
        }
    }

    /// The pip of a virtual environment.
    pub fn venv_pip(&self, venv_dir: &str, windows: bool) -> (r: String)
        ensures
            r@ == venv_program(venv_dir@, "pip.exe"@, "pip"@, windows),
    {
        if windows {
            let d = crate::common::paths::join_path(venv_dir, "Scripts");
            crate::common::paths::join_path(d.as_str(), "pip.exe")
        } else {
            let d = crate::common::paths::join_path(venv_dir, "bin");
            crate::common::paths::join_path(d.as_str(), "pip")
        }
    }

    /// The package pip installs: debugpy, at the requested version.
    pub fn package_spec(&self, version: &Option<String>) -> (r: String)
        ensures
            r@ == match version {
                Some(v) => "debugpy=="@ + v@,
                None => "debugpy"@,
            },
    {
        match version {
            Some(v) => {
                let mut m = crate::text::chars_of("debugpy==");
                crate::text::append_str(&mut m, v.as_str());
                crate::text::string_from(m.as_slice())
            },
            None => String::from_str("debugpy"),
        }
    }

    /// The arguments that start debugpy as an adapter.
    pub fn adapter_args(&self) -> (r: Vec<String>)
        ensures
            texts(r@) == seq!["-m"@, "debugpy.adapter"@],
    {
        two_args("-m", "debugpy.adapter")
    }

    /// What an installation gives: the environment's Python, the version
    /// it printed (trimmed), and the adapter arguments.
    pub fn install_result(&self, python: String, version_output: Option<String>) -> (r: InstallResult)
        ensures
            r.path == python,
            match version_output {
                Some(out) => r.version matches Some(v) && v@ == trimmed(out@),
                None => r.version is None,
            },
            texts(r.args@) == seq!["-m"@, "debugpy.adapter"@],
    {
        let version = match version_output {
            Some(out) => Some(trimmed_string(out.as_str())),
            None => None,
        };
        InstallResult { path: python, version, args: self.adapter_args() }
    }
}

} // verus!
