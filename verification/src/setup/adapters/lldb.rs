//! LLVM's `lldb-dap` (formerly `lldb-vscode`).

use crate::common::Error;
use crate::setup::adapters::{cannot_install, unexpected_method};
use crate::setup::installer::{InstallMethod, InstallResult, InstallStatus, PackageManager};
use crate::setup::registry::{DebuggerInfo, DebuggerView, Platform};
use crate::text::{lines_of, words};
use vstd::prelude::*;

verus! {

/// The installer of `lldb-dap`.
pub struct LldbInstaller;

/// What the `lldb-dap` installer says of it.
pub open spec fn lldb_view() -> DebuggerView {
    DebuggerView {
        id: "lldb"@,
        name: "lldb-dap"@,
        languages: seq!["c"@, "cpp"@, "rust"@, "swift"@],
        platforms: seq![Platform::Linux, Platform::MacOS],
        description: "LLVM's native DAP adapter"@,
        primary: true,
    }
}

/// A found program with its version, when known.
pub open spec fn installed_as(r: InstallStatus, found: (String, Option<String>)) -> bool {
    r == (InstallStatus::Installed { path: found.0, version: found.1 })
}

/// The version an `lldb-dap --version` output shows: the last word of its
/// first line (`lldb version 17.0.6`).
pub open spec fn lldb_version_of(output: Seq<char>) -> Option<Seq<char>> {
    let ls = lines_of(output);
    if ls.len() == 0 {
        None
    } else {
        let ws = words(ls[0]);
        if ws.len() == 0 {
            None
        } else {
            Some(ws.last())
        }
    }
}

/// The release asset patterns of LLVM for an architecture and platform.
pub open spec fn llvm_asset_patterns(arch: Seq<char>, platform: Seq<char>) -> Seq<Seq<char>> {
    seq!["LLVM-*-"@ + arch + "-"@ + platform + ".tar.xz"@, "clang+llvm-*-"@ + arch + "-*"@ + platform + ".tar.xz"@]
}

/// The index of the first name from `k` on that starts with `p`.
pub open spec fn first_with_prefix(names: Seq<Seq<char>>, p: Seq<char>, k: int) -> Option<int>
    decreases names.len() - k,
{
    if k < 0 || k >= names.len() {
        None
    } else if crate::text::has_prefix(names[k], p) {
        Some(k)
    } else {
        first_with_prefix(names, p, k + 1)
    }
}

/// The directory an LLVM archive unpacked into: the first named `LLVM...`,
/// else the first named `clang...`.
pub open spec fn llvm_dir_index(names: Seq<Seq<char>>) -> Option<int> {
    match first_with_prefix(names, "LLVM"@, 0) {
        Some(i) => Some(i),
        None => first_with_prefix(names, "clang"@, 0),
    }
}

proof fn lemma_first_with_prefix(names: Seq<Seq<char>>, p: Seq<char>, k: int)
    ensures
        first_with_prefix(names, p, k) matches Some(i) ==> 0 <= i < names.len(),
    decreases names.len() - k,
{
    if !(k < 0 || k >= names.len()) && !crate::text::has_prefix(names[k], p) {
        lemma_first_with_prefix(names, p, k + 1);
    }
}

fn find_prefixed(names: &[String], p: &str) -> (r: Option<usize>)
    ensures
        r matches Some(i) ==> i < names@.len(),
        r == (match first_with_prefix(names@.map_values(|s: String| s@), p@, 0) {
            Some(i) => Some(i as usize),
            None => None::<usize>,
        }),
{
    let ghost ns = names@.map_values(|s: String| s@);
    let pc = crate::text::chars_of(p);
    let mut k: usize = 0;
    while k < names.len()
        invariant
            k <= names@.len(),
            ns == names@.map_values(|s: String| s@),
            pc@ == p@,
            first_with_prefix(ns, p@, 0) == first_with_prefix(ns, p@, k as int),
        decreases names@.len() - k,
    {
        let c = crate::text::chars_of(names[k].as_str());
        if crate::text::starts_with(c.as_slice(), pc.as_slice()) {
            return Some(k);
        }
        k = k + 1;
    }
    None
}

impl crate::setup::installer::Installer for LldbInstaller {
    /// The debugger this installer installs.
    fn info(&self) -> (r: DebuggerInfo)
        ensures
            r@ == lldb_view(),
    {
        let d = crate::setup::registry::entry(
            "lldb",
            "lldb-dap",
            vec!["c", "cpp", "rust", "swift"],
            vec![Platform::Linux, Platform::MacOS],
            "LLVM's native DAP adapter",
            true,
        );
        proof {
            assert(d@.languages =~= lldb_view().languages);
        }
        d
    }
}

impl LldbInstaller {
    /// The state of `lldb-dap`: the managed copy first, then `lldb-dap` on
    /// the `PATH`, then `lldb-vscode` there; each with its version.
    pub fn status(
        &self,
        managed: Option<(String, Option<String>)>,
        dap: Option<(String, Option<String>)>,
        vscode: Option<(String, Option<String>)>,
    ) -> (r: InstallStatus)
        ensures
            match (managed, dap, vscode) {
                (Some(m), _, _) => installed_as(r, m),
                (None, Some(d), _) => installed_as(r, d),
                (None, None, Some(v)) => installed_as(r, v),
                (None, None, None) => r == InstallStatus::NotInstalled,
            },
    {
        match (managed, dap, vscode) {
            (Some(m), _, _) => InstallStatus::Installed { path: m.0, version: m.1 },
            (None, Some(d), _) => InstallStatus::Installed { path: d.0, version: d.1 },
            (None, None, Some(v)) => InstallStatus::Installed { path: v.0, version: v.1 },
            (None, None, None) => InstallStatus::NotInstalled,
        }
    }

    /// How to get `lldb-dap`: one already on the `PATH`; on macOS Homebrew's
    /// `llvm`, else Xcode's copy; on Linux the system's `lldb` package (apt,
    /// dnf, pacman, in that order), else an LLVM release; never on Windows.
    pub fn best_method(
        &self,
        dap: Option<String>,
        vscode: Option<String>,
        platform: Platform,
        managers: &[PackageManager],
        xcode_present: bool,
    ) -> (r: InstallMethod)
        ensures
            match (dap, vscode) {
                (Some(p), _) => r == (InstallMethod::AlreadyInstalled { path: p }),
                (None, Some(p)) => r == (InstallMethod::AlreadyInstalled { path: p }),
                (None, None) => match platform {
                    Platform::MacOS => if managers@.contains(PackageManager::Homebrew) {
                        r matches InstallMethod::PackageManager { manager, package } && manager
                            == PackageManager::Homebrew && package@ == "llvm"@
                    } else if xcode_present {
                        r matches InstallMethod::AlreadyInstalled { path } && path@ == "/usr/bin/lldb-dap"@
                    } else {
                        r matches InstallMethod::NotSupported { reason } && reason@
                            == "No installation method found for this platform"@
                    },
                    Platform::Linux => if managers@.contains(PackageManager::Apt) {
                        r matches InstallMethod::PackageManager { manager, package } && manager
                            == PackageManager::Apt && package@ == "lldb"@
                    } else if managers@.contains(PackageManager::Dnf) {
                        r matches InstallMethod::PackageManager { manager, package } && manager
                            == PackageManager::Dnf && package@ == "lldb"@
                    } else if managers@.contains(PackageManager::Pacman) {
                        r matches InstallMethod::PackageManager { manager, package } && manager
                            == PackageManager::Pacman && package@ == "lldb"@
                    } else {
                        r matches InstallMethod::GitHubRelease { repo, asset_pattern } && repo@
                            == "llvm/llvm-project"@ && asset_pattern@ == "LLVM-*-Linux-*.tar.xz"@
                    },
                    Platform::Windows => r matches InstallMethod::NotSupported { reason } && reason@
                        == "lldb-dap is not well-supported on Windows. Use codelldb instead."@,
                },
            },
    {
        if let Some(p) = dap {
            return InstallMethod::AlreadyInstalled { path: p };
        }
        if let Some(p) = vscode {
            return InstallMethod::AlreadyInstalled { path: p };
        }
        match platform {
            Platform::MacOS => {
                if crate::setup::installer::has_manager(managers, PackageManager::Homebrew) {
                    return InstallMethod::PackageManager {
                        manager: PackageManager::Homebrew,
                        package: String::from_str("llvm"),
                    };
                }
                if xcode_present {
                    return InstallMethod::AlreadyInstalled { path: String::from_str("/usr/bin/lldb-dap") };
                }
            },
            Platform::Linux => {
                if crate::setup::installer::has_manager(managers, PackageManager::Apt) {
                    return InstallMethod::PackageManager {
                        manager: PackageManager::Apt,
                        package: String::from_str("lldb"),
                    };
                }
                if crate::setup::installer::has_manager(managers, PackageManager::Dnf) {
                    return InstallMethod::PackageManager {
                        manager: PackageManager::Dnf,
                        package: String::from_str("lldb"),
                    };
                }
                if crate::setup::installer::has_manager(managers, PackageManager::Pacman) {
                    return InstallMethod::PackageManager {
                        manager: PackageManager::Pacman,
                        package: String::from_str("lldb"),
                    };
                }
                return InstallMethod::GitHubRelease {
                    repo: String::from_str("llvm/llvm-project"),
                    asset_pattern: String::from_str("LLVM-*-Linux-*.tar.xz"),
                };
            },
            Platform::Windows => {
                return InstallMethod::NotSupported {
                    reason: String::from_str(
                        "lldb-dap is not well-supported on Windows. Use codelldb instead.",
                    ),
                };
            },
        }
        InstallMethod::NotSupported {
            reason: String::from_str("No installation method found for this platform"),
        }
    }

    /// What installing comes to when no download or package manager is
    /// needed: the program already there, or why it cannot be installed.
    /// `None` for the methods that need one.
    pub fn install_outcome(&self, method: InstallMethod, version: Option<String>) -> (r: Option<
        Result<InstallResult, Error>,
    >)
        ensures
            match method {
                InstallMethod::AlreadyInstalled { path } => r matches Some(Ok(res)) && res.path == path
                    && res.version == version && res.args@.len() == 0,
                InstallMethod::PackageManager { .. } => r is None,
                InstallMethod::GitHubRelease { .. } => r is None,
                InstallMethod::NotSupported { reason } => r matches Some(Err(Error::Internal(m))) && m@
                    == "Cannot install "@ + "lldb-dap"@ + ": "@ + reason@,
                _ => r matches Some(Err(Error::Internal(m))) && m@ == "Unexpected installation method"@,
            },
    {
        match method {
            InstallMethod::AlreadyInstalled { path } => Some(
                Ok(InstallResult { path, version, args: Vec::new() }),
            ),
            InstallMethod::PackageManager { .. } => None,
            InstallMethod::GitHubRelease { .. } => None,
            InstallMethod::NotSupported { reason } => Some(
                Err(cannot_install("lldb-dap", reason.as_str())),
            ),
            _ => Some(Err(unexpected_method())),
        }
    }

    /// The program to use after a package manager ran: `lldb-dap` on the
    /// `PATH`, else `lldb-vscode`.
    pub fn found_after_install(&self, dap: Option<String>, vscode: Option<String>) -> (r: Result<
        String,
        Error,
    >)
        ensures
            match (dap, vscode) {
                (Some(p), _) => r == Ok::<String, Error>(p),
                (None, Some(p)) => r == Ok::<String, Error>(p),
                (None, None) => r matches Err(Error::Internal(m)) && m@
                    == "lldb-dap not found after installation. You may need to add LLVM to your PATH."@,
            },
    {
        match (dap, vscode) {
            (Some(p), _) => Ok(p),
            (None, Some(p)) => Ok(p),
            (None, None) => Err(
                Error::Internal(
                    String::from_str(
                        "lldb-dap not found after installation. You may need to add LLVM to your PATH.",
                    ),
                ),
            ),
        }
    }

    /// The version shown by `lldb-dap --version`.
    pub fn version_from_output(&self, output: &str) -> (r: Option<String>)
        ensures
            match lldb_version_of(output@) {
                Some(v) => r matches Some(s) && s@ == v,
                None => r is None,
            },
    {
        let cs = crate::text::chars_of(output);
        let ls = crate::text::lines(cs.as_slice());
        if ls.len() == 0 {
            return None;
        }
        proof {
            assert(crate::text::views(ls@)[0] == ls@[0]@);
        }
        let ws = crate::text::split_whitespace(ls[0].as_slice());
        if ws.len() == 0 {
            return None;
        }
        proof {
            assert(crate::text::views(ws@).last() == ws@[ws@.len() - 1]@);
        }
        Some(crate::text::string_from(ws[ws.len() - 1].as_slice()))
    }

    /// The release asset patterns for an architecture and platform.
    pub fn asset_patterns(&self, arch: &str, platform: &str) -> (r: Vec<String>)
        ensures
            crate::setup::adapters::texts(r@) == llvm_asset_patterns(arch@, platform@),
    {
        let mut a = crate::text::chars_of("LLVM-*-");
        crate::text::append_str(&mut a, arch);
        crate::text::append_str(&mut a, "-");
        crate::text::append_str(&mut a, platform);
        crate::text::append_str(&mut a, ".tar.xz");
        let mut b = crate::text::chars_of("clang+llvm-*-");
        crate::text::append_str(&mut b, arch);
        crate::text::append_str(&mut b, "-*");
        crate::text::append_str(&mut b, platform);
        crate::text::append_str(&mut b, ".tar.xz");
        let mut r: Vec<String> = Vec::new();
        r.push(crate::text::string_from(a.as_slice()));
        r.push(crate::text::string_from(b.as_slice()));
        proof {
            assert(crate::setup::adapters::texts(r@) =~= llvm_asset_patterns(arch@, platform@));
        }
        r
    }

    /// Which of the unpacked directories holds LLVM.
    pub fn extracted_dir(&self, dirs: &[String]) -> (r: Result<usize, Error>)
        ensures
            match llvm_dir_index(dirs@.map_values(|s: String| s@)) {
                Some(i) => r == Ok::<usize, Error>(i as usize),
                None => r matches Err(Error::Internal(m)) && m@
                    == "Could not find extracted LLVM directory"@,
            },
    {
        match find_prefixed(dirs, "LLVM") {
            Some(i) => Ok(i),
            None => match find_prefixed(dirs, "clang") {
                Some(i) => Ok(i),
                None => Err(Error::Internal(String::from_str("Could not find extracted LLVM directory"))),
            },
        }
    }
}

} // verus!
