//! GDB with its built-in DAP interpreter (GDB 14.1 or later).

use crate::common::Error;
use crate::setup::adapters::gdb_common::{is_gdb_version_sufficient, version_sufficient};
use crate::setup::adapters::{cannot_install, one_arg, texts, unexpected_method};
use crate::setup::installer::{InstallMethod, InstallResult, InstallStatus};
use crate::setup::registry::{DebuggerInfo, DebuggerView, Platform};
use vstd::prelude::*;

verus! {

/// The installer of GDB.
pub struct GdbInstaller;

/// What GDB's installer says of it.
pub open spec fn gdb_view() -> DebuggerView {
    DebuggerView {
        id: "gdb"@,
        name: "GDB"@,
        languages: seq!["c"@, "cpp"@],
        platforms: seq![Platform::Linux, Platform::MacOS, Platform::Windows],
        description: "GDB native DAP adapter"@,
        primary: true,
    }
}

/// Why a GDB found is of no use: its version is too old.
pub open spec fn old_gdb_reason(version: Seq<char>) -> Seq<char> {
    "GDB version "@ + version + " found, but ≥14.1 required for native DAP support"@
}

impl crate::setup::installer::Installer for GdbInstaller {
    /// The debugger this installer installs.
    fn info(&self) -> (r: DebuggerInfo)
        ensures
            r@ == gdb_view(),
    {
        let d = crate::setup::registry::entry(
            "gdb",
            "GDB",
            vec!["c", "cpp"],
            vec![Platform::Linux, Platform::MacOS, Platform::Windows],
            "GDB native DAP adapter",
            true,
        );
        proof {
            assert(d@.languages =~= gdb_view().languages);
        }
        d
    }
}

impl GdbInstaller {
    /// The state of GDB, from the `gdb` found on the `PATH` and the version
    /// it reports: usable from 14.1 on; broken when older or when its
    /// version cannot be told.
    pub fn status(&self, found: Option<String>, version: Option<String>) -> (r: InstallStatus)
        ensures
            match found {
                None => r == InstallStatus::NotInstalled,
                Some(p) => match version {
                    Some(v) => if version_sufficient(v@) {
                        r == (InstallStatus::Installed { path: p, version: Some(v) })
                    } else {
                        r matches InstallStatus::Broken { path, reason } && path == p && reason@
                            == old_gdb_reason(v@)
                    },
                    None => r matches InstallStatus::Broken { path, reason } && path == p
                        && reason@ == "Could not determine GDB version"@,
                },
            },
    {
        match found {
            None => InstallStatus::NotInstalled,
            Some(path) => match version {
                Some(v) => {
                    if is_gdb_version_sufficient(v.as_str()) {
                        InstallStatus::Installed { path, version: Some(v) }
                    } else {
                        let mut m = crate::text::chars_of("GDB version ");
                        crate::text::append_str(&mut m, v.as_str());
                        crate::text::append_str(
                            &mut m,
                            " found, but ≥14.1 required for native DAP support",
                        );
                        InstallStatus::Broken { path, reason: crate::text::string_from(m.as_slice()) }
                    }
                },
                None => InstallStatus::Broken {
                    path,
                    reason: String::from_str("Could not determine GDB version"),
                },
            },
        }
    }

    /// How to get GDB: the one found when recent enough; GDB is not
    /// installed by this tool otherwise.
    pub fn best_method(&self, found: Option<String>, version: Option<String>) -> (r: InstallMethod)
        ensures
            match (found, version) {
                (Some(p), Some(v)) if version_sufficient(v@) => r == (InstallMethod::AlreadyInstalled {
                    path: p,
                }),
                _ => r matches InstallMethod::NotSupported { reason } && reason@
                    == "GDB ≥14.1 not found. Install via your system package manager."@,
            },
    {
        if let (Some(p), Some(v)) = (found, version) {
            if is_gdb_version_sufficient(v.as_str()) {
                return InstallMethod::AlreadyInstalled { path: p };
            }
        }
        InstallMethod::NotSupported {
            reason: String::from_str("GDB ≥14.1 not found. Install via your system package manager."),
        }
    }

    /// What installing comes to for the chosen method: the GDB found, run
    /// with `-i=dap`; or why it cannot be installed.
    pub fn install(&self, method: InstallMethod, version: Option<String>) -> (r: Result<
        InstallResult,
        Error,
    >)
        ensures
            match method {
                InstallMethod::AlreadyInstalled { path } => r matches Ok(res) && res.path == path
                    && res.version == version && texts(res.args@) == seq!["-i=dap"@],
                InstallMethod::NotSupported { reason } => r matches Err(Error::Internal(m)) && m@
                    == "Cannot install "@ + "GDB"@ + ": "@ + reason@,
                _ => r matches Err(Error::Internal(m)) && m@ == "Unexpected installation method"@,
            },
    {
        match method {
            InstallMethod::AlreadyInstalled { path } => Ok(
                InstallResult { path, version, args: one_arg("-i=dap") },
            ),
            InstallMethod::NotSupported { reason } => Err(cannot_install("GDB", reason.as_str())),
            _ => Err(unexpected_method()),
        }
    }
}

} // verus!
