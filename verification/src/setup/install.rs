//! The setup command's options and results, and the decisions of an
//! installation: each step takes what the installer answered and says what
//! to do next.

use crate::setup::installer::{InstallOptions, InstallResult, InstallStatus};
use vstd::prelude::*;

verus! {

/// Options of the setup command.
#[derive(Debug, Clone)]
pub struct SetupOptions {
    /// The debugger to install.
    pub debugger: Option<String>,
    /// The version to install.
    pub version: Option<String>,
    /// List the debuggers.
    pub list: bool,
    /// Check the installed debuggers.
    pub check: bool,
    /// Install what the project in the current directory needs.
    pub auto_detect: bool,
    /// Uninstall instead of install.
    pub uninstall: bool,
    /// Show where a debugger is installed.
    pub path: bool,
    /// Reinstall even when installed.
    pub force: bool,
    /// Only say what would be done.
    pub dry_run: bool,
    /// Print JSON.
    pub json: bool,
}

/// The outcome of a setup operation.
#[derive(Debug, Clone)]
pub struct SetupResult {
    pub status: SetupStatus,
    pub debugger: String,
    pub version: Option<String>,
    pub path: Option<String>,
    pub languages: Option<Vec<String>>,
    pub message: Option<String>,
}

/// The status of a setup operation.
#[derive(Debug, Clone, Copy, PartialEq, Eq, Structural)]
pub enum SetupStatus {
    Success,
    AlreadyInstalled,
    Uninstalled,
    NotFound,
    Failed,
    DryRun,
}

/// What the installation of a debugger has learned.
#[derive(Debug)]
pub enum InstallEvent {
    /// No installer exists for the debugger.
    NoInstaller,
    /// Asking for the status failed, with this error text.
    StatusFailed(String),
    /// The installer reported this status.
    Status(InstallStatus),
    /// The method a dry run would use, as text.
    Method(String),
    /// The installation succeeded.
    Installed(InstallResult),
    /// The installation failed, with this error text.
    InstallFailed(String),
}

/// What to do next.
#[derive(Debug)]
pub enum InstallAction {
    /// Stop with this result.
    Report(SetupResult),
    /// Ask the installer for its best method (a dry run).
    QueryMethod,
    /// Install with these options.
    Install(InstallOptions),
}

/// The view of an optional string.
pub open spec fn opt_text(o: Option<String>) -> Option<Seq<char>> {
    match o {
        Some(s) => Some(s@),
        None => None,
    }
}

/// The views of strings.
pub open spec fn texts(v: Seq<String>) -> Seq<Seq<char>> {
    v.map_values(|s: String| s@)
}

/// `r` has this status, debugger and message, and no version, path or
/// languages.
pub open spec fn bare_result(r: SetupResult, status: SetupStatus, debugger: Seq<char>, message: Seq<char>) -> bool {
    &&& r.status == status
    &&& r.debugger@ == debugger
    &&& r.version is None
    &&& r.path is None
    &&& r.languages is None
    &&& opt_text(r.message) == Some(message)
}

/// `r` reports the debugger's languages.
pub open spec fn has_languages(r: SetupResult, languages: Seq<Seq<char>>) -> bool {
    r.languages matches Some(l) && texts(l@) == languages
}

/// A copy of an optional string.
fn copy_text(o: &Option<String>) -> (r: Option<String>)
    ensures
        opt_text(r) == opt_text(*o),
{
    match o {
        Some(s) => Some(s.clone()),
        None => None,
    }
}

/// A copy of a list of strings.
fn copy_texts(v: &Vec<String>) -> (r: Vec<String>)
    ensures
        texts(r@) == texts(v@),
{
    let mut out: Vec<String> = Vec::new();
    let mut k: usize = 0;
    while k < v.len()
        invariant
            k <= v@.len(),
            texts(out@) == texts(v@.take(k as int)),
        decreases v@.len() - k,
    {
        let s = v[k].clone();
        proof {
            assert(texts(out@.push(s)) =~= texts(out@).push(s@));
            assert(texts(v@.take(k + 1)) =~= texts(v@.take(k as int)).push(v@[k as int]@));
        }
        out.push(s);
        k = k + 1;
    }
    proof {
        assert(v@.take(v@.len() as int) =~= v@);
    }
    out
}

/// The next step of installing `debugger`, whose languages are given, after
/// `event`.
pub fn install_step(debugger: &str, opts: &SetupOptions, languages: &Vec<String>, event: InstallEvent) -> (a: InstallAction)
    ensures
        match event {
            InstallEvent::NoInstaller => (a matches InstallAction::Report(r) && bare_result(
                r,
                SetupStatus::NotFound,
                debugger@,
                "Unknown debugger: "@ + debugger@,
            )),
            InstallEvent::StatusFailed(e) => (a matches InstallAction::Report(r) && bare_result(
                r,
                SetupStatus::Failed,
                debugger@,
                "Failed to check status: "@ + e@,
            )),
            InstallEvent::Status(s) => if (s matches InstallStatus::Installed { .. }) && !opts.force {
                a matches InstallAction::Report(r) && r.status == SetupStatus::AlreadyInstalled && r.debugger@
                    == debugger@ && opt_text(r.version) == opt_text(s->version) && opt_text(r.path) == Some(
                    s->Installed_path@,
                ) && has_languages(r, texts(languages@)) && r.message is None
            } else if opts.dry_run {
                a matches InstallAction::QueryMethod
            } else {
                a matches InstallAction::Install(o) && opt_text(o.version) == opt_text(opts.version) && o.force
                    == opts.force
            },
            InstallEvent::Method(m) => (a matches InstallAction::Report(r) && r.status == SetupStatus::DryRun
                && r.debugger@ == debugger@ && opt_text(r.version) == opt_text(opts.version) && r.path is None
                && has_languages(r, texts(languages@)) && opt_text(r.message) == Some("Method: "@ + m@)),
            InstallEvent::Installed(res) => (a matches InstallAction::Report(r) && r.status == SetupStatus::Success
                && r.debugger@ == debugger@ && opt_text(r.version) == opt_text(res.version) && opt_text(r.path)
                == Some(res.path@) && has_languages(r, texts(languages@)) && r.message is None),
            InstallEvent::InstallFailed(e) => (a matches InstallAction::Report(r) && bare_result(
                r,
                SetupStatus::Failed,
                debugger@,
                e@,
            )),
        },
{
    let name = String::from_str(debugger);
    match event {
        InstallEvent::NoInstaller => {
            let d = crate::text::chars_of(debugger);
            let m = crate::common::error::text3("Unknown debugger: ", d.as_slice(), "");
            proof {
                crate::common::error::lemma_empty_suffix();
            }
            InstallAction::Report(SetupResult {
                status: SetupStatus::NotFound,
                debugger: name,
                version: None,
                path: None,
                languages: None,
                message: Some(m),
            })
        },
        InstallEvent::StatusFailed(e) => {
            let ec = crate::text::chars_of(e.as_str());
            let m = crate::common::error::text3("Failed to check status: ", ec.as_slice(), "");
            proof {
                crate::common::error::lemma_empty_suffix();
            }
            InstallAction::Report(SetupResult {
                status: SetupStatus::Failed,
                debugger: name,
                version: None,
                path: None,
                languages: None,
                message: Some(m),
            })
        },
        InstallEvent::Status(s) => {
            match s {
                InstallStatus::Installed { path, version } => {
                    if !opts.force {
                        return InstallAction::Report(SetupResult {
                            status: SetupStatus::AlreadyInstalled,
                            debugger: name,
                            version,
                            path: Some(path),
                            languages: Some(copy_texts(languages)),
                            message: None,
                        });
                    }
                },
                _ => {},
            }
            if opts.dry_run {
                InstallAction::QueryMethod
            } else {
                InstallAction::Install(InstallOptions { version: copy_text(&opts.version), force: opts.force })
            }
        },
        InstallEvent::Method(m) => {
            let mc = crate::text::chars_of(m.as_str());
            let msg = crate::common::error::text3("Method: ", mc.as_slice(), "");
            proof {
                crate::common::error::lemma_empty_suffix();
            }
            InstallAction::Report(SetupResult {
                status: SetupStatus::DryRun,
                debugger: name,
                version: copy_text(&opts.version),
                path: None,
                languages: Some(copy_texts(languages)),
                message: Some(msg),
            })
        },
        InstallEvent::Installed(res) => {
            InstallAction::Report(SetupResult {
                status: SetupStatus::Success,
                debugger: name,
                version: res.version,
                path: Some(res.path),
                languages: Some(copy_texts(languages)),
                message: None,
            })
        },
        InstallEvent::InstallFailed(e) => {
            InstallAction::Report(SetupResult {
                status: SetupStatus::Failed,
                debugger: name,
                version: None,
                path: None,
                languages: None,
                message: Some(e),
            })
        },
    }
}

} // verus!
