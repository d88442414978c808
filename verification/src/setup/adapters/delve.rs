//! Delve, the Go debugger: from `go install` or its GitHub releases.

use crate::common::Error;
use crate::setup::adapters::{one_arg, strip_leading, texts, unexpected_method};
use crate::setup::installer::{InstallMethod, InstallResult, InstallStatus, PackageManager};
use crate::setup::registry::{DebuggerInfo, DebuggerView, Platform};
use crate::text::{has_prefix, lines_of, trimmed};
use vstd::prelude::*;

verus! {

/// The installer of Delve.
pub struct DelveInstaller;

/// What the Delve installer says of it.
pub open spec fn delve_view() -> DebuggerView {
    DebuggerView {
        id: "go"@,
        name: "Delve"@,
        languages: seq!["go"@],
        platforms: seq![Platform::Linux, Platform::MacOS, Platform::Windows],
        description: "Go debugger with DAP support"@,
        primary: true,
    }
}

/// The package `go install` fetches by default.
pub open spec fn dlv_package() -> Seq<char> {
    "github.com/go-delve/delve/cmd/dlv@latest"@
}

/// The name Delve's releases give an architecture.
pub open spec fn delve_arch_of(arch: Seq<char>) -> Seq<char> {
    if arch == "x86_64"@ {
        "amd64"@
    } else if arch == "aarch64"@ {
        "arm64"@
    } else {
        arch
    }
}

/// The release asset patterns of Delve for a platform and architecture.
pub open spec fn delve_patterns(platform: Seq<char>, arch: Seq<char>) -> Seq<Seq<char>> {
    let a = delve_arch_of(arch);
    seq!["delve_"@ + platform + "_"@ + a + ".tar.gz"@, "delve_*_"@ + platform + "_"@ + a + ".tar.gz"@]
}

/// The index of the first line from `k` on that starts with `Version:`.
pub open spec fn version_line(ls: Seq<Seq<char>>, k: int) -> Option<int>
    decreases ls.len() - k,
{
    if k < 0 || k >= ls.len() {
        None
    } else if has_prefix(ls[k], "Version:"@) {
        Some(k)
    } else {
        version_line(ls, k + 1)
    }
}

/// The version `dlv version` shows: the rest of its `Version:` line,
/// trimmed.
pub open spec fn dlv_version_of(output: Seq<char>) -> Option<Seq<char>> {
    let ls = lines_of(output);
    match version_line(ls, 0) {
        Some(i) => Some(trimmed(ls[i].skip(8))),
        None => None,
    }
}

impl crate::setup::installer::Installer for DelveInstaller {
    /// The debugger this installer installs.
    fn info(&self) -> (r: DebuggerInfo)
        ensures
            r@ == delve_view(),
    {
        let d = crate::setup::registry::entry(
            "go",
            "Delve",
            vec!["go"],
            vec![Platform::Linux, Platform::MacOS, Platform::Windows],
            "Go debugger with DAP support",
            true,
        );
        proof {
            assert(d@.languages =~= delve_view().languages);
            assert(d@.platforms =~= delve_view().platforms);
        }
        d
    }
}

impl DelveInstaller {
    /// The state of Delve: the managed copy with its recorded version, else
    /// `dlv` on the `PATH` with the version it reports.
    pub fn status(&self, managed: Option<(String, Option<String>)>, found: Option<(String, Option<String>)>) -> (r:
        InstallStatus)
        ensures
            match (managed, found) {
                (Some(m), _) => r == (InstallStatus::Installed { path: m.0, version: m.1 }),
                (None, Some(f)) => r == (InstallStatus::Installed { path: f.0, version: f.1 }),
                (None, None) => r == InstallStatus::NotInstalled,
            },
    {
        match (managed, found) {
            (Some(m), _) => InstallStatus::Installed { path: m.0, version: m.1 },
            (None, Some(f)) => InstallStatus::Installed { path: f.0, version: f.1 },
            (None, None) => InstallStatus::NotInstalled,
        }
    }

    /// How to get Delve: `dlv` already on the `PATH`; else `go install` when
    /// Go is there; else its GitHub release for the platform.
    pub fn best_method(&self, found: Option<String>, managers: &[PackageManager], platform: &str) -> (r:
        InstallMethod)
        ensures
            match found {
                Some(p) => r == (InstallMethod::AlreadyInstalled { path: p }),
                None => if managers@.contains(PackageManager::Go) {
                    r matches InstallMethod::LanguagePackage { tool, package } && tool@ == "go"@ && package@
                        == dlv_package()
                } else {
                    r matches InstallMethod::GitHubRelease { repo, asset_pattern } && repo@ == "go-delve/delve"@
                        && asset_pattern@ == "delve_*_"@ + platform@ + "_*.tar.gz"@
                },
            },
    {
        if let Some(p) = found {
            return InstallMethod::AlreadyInstalled { path: p };
        }
        if crate::setup::installer::has_manager(managers, PackageManager::Go) {
            return InstallMethod::LanguagePackage {
                tool: String::from_str("go"),
                package: String::from_str("github.com/go-delve/delve/cmd/dlv@latest"),
            };
        }
        let mut m = crate::text::chars_of("delve_*_");
        crate::text::append_str(&mut m, platform);
        crate::text::append_str(&mut m, "_*.tar.gz");
        InstallMethod::GitHubRelease {
            repo: String::from_str("go-delve/delve"),
            asset_pattern: crate::text::string_from(m.as_slice()),
        }
    }

    /// What installing comes to without a download or `go install`: the
    /// `dlv` found, run with `dap`. `None` for the methods that need one.
    pub fn install_outcome(&self, method: InstallMethod, version: Option<String>) -> (r: Option<
        Result<InstallResult, Error>,
    >)
        ensures
            match method {
                InstallMethod::AlreadyInstalled { path } => r matches Some(Ok(res)) && res.path == path
                    && res.version == version && texts(res.args@) == seq!["dap"@],
                InstallMethod::LanguagePackage { .. } => r is None,
                InstallMethod::GitHubRelease { .. } => r is None,
                _ => r matches Some(Err(Error::Internal(m))) && m@ == "Unexpected installation method"@,
            },
    {
        match method {
            InstallMethod::AlreadyInstalled { path } => Some(
                Ok(InstallResult { path, version, args: one_arg("dap") }),
            ),
            InstallMethod::LanguagePackage { .. } => None,
            InstallMethod::GitHubRelease { .. } => None,
            _ => Some(Err(unexpected_method())),
        }
    }

    /// The command that installs Delve with Go: the given package, or the
    /// requested version of `dlv`.
    pub fn go_install_command(&self, tool: &str, package: &str, version: Option<String>) -> (r: String)
        ensures
            r@ == tool@ + " install "@ + match version {
                Some(v) => "github.com/go-delve/delve/cmd/dlv@v"@ + strip_leading(v@, 'v'),
                None => package@,
            },
    {
        let mut m = crate::text::chars_of(tool);
        crate::text::append_str(&mut m, " install ");
        match version {
            Some(v) => {
                crate::text::append_str(&mut m, "github.com/go-delve/delve/cmd/dlv@v");
                let t = crate::setup::adapters::trim_leading(v.as_str(), 'v');
                crate::text::append_str(&mut m, t.as_str());
            },
            None => crate::text::append_str(&mut m, package),
        }
        crate::text::string_from(m.as_slice())
    }

    /// The `dlv` to use after `go install`.
    pub fn found_after_install(&self, found: Option<String>) -> (r: Result<String, Error>)
        ensures
            match found {
                Some(p) => r == Ok::<String, Error>(p),
                None => r matches Err(Error::Internal(m)) && m@
                    == "dlv not found after installation. Make sure GOPATH/bin is in your PATH."@,
            },
    {
        match found {
            Some(p) => Ok(p),
            None => Err(
                Error::Internal(
                    String::from_str("dlv not found after installation. Make sure GOPATH/bin is in your PATH."),
                ),
            ),
        }
    }

    /// The version shown by `dlv version`.
    pub fn version_from_output(&self, output: &str) -> (r: Option<String>)
        ensures
            match dlv_version_of(output@) {
                Some(v) => r matches Some(s) && s@ == v,
                None => r is None,
            },
    {
        let cs = crate::text::chars_of(output);
        let ls = crate::text::lines(cs.as_slice());
        let ghost lv = crate::text::views(ls@);
        let mut k: usize = 0;
        while k < ls.len()
            invariant
                k <= ls@.len(),
                lv == crate::text::views(ls@),
                lv == lines_of(output@),
                version_line(lv, 0) == version_line(lv, k as int),
            decreases ls@.len() - k,
        {
            proof {
                assert(lv[k as int] == ls@[k as int]@);
            }
            if crate::text::starts_with_str(ls[k].as_slice(), "Version:") {
                let n = ls[k].len();
                proof {
                    reveal_strlit("Version:");
                }
                let rest = crate::text::slice_range(ls[k].as_slice(), 8, n);
                proof {
                    assert(rest@ =~= lv[k as int].skip(8));
                }
                let t = crate::text::trim(rest.as_slice());
                return Some(crate::text::string_from(t.as_slice()));
            }
            k = k + 1;
        }
        None
    }

    /// The name Delve's releases give an architecture.
    pub fn delve_arch(&self, arch: &str) -> (r: String)
        ensures
            r@ == delve_arch_of(arch@),
    {
        let a = crate::text::chars_of(arch);
        if crate::text::eq_str(a.as_slice(), "x86_64") {
            String::from_str("amd64")
        } else if crate::text::eq_str(a.as_slice(), "aarch64") {
            String::from_str("arm64")
        } else {
            String::from_str(arch)
        }
    }

    /// The release asset patterns for a platform and architecture.
    pub fn asset_patterns(&self, platform: &str, arch: &str) -> (r: Vec<String>)
        ensures
            texts(r@) == delve_patterns(platform@, arch@),
    {
        let a = self.delve_arch(arch);
        let mut x = crate::text::chars_of("delve_");
        crate::text::append_str(&mut x, platform);
        crate::text::append_str(&mut x, "_");
        crate::text::append_str(&mut x, a.as_str());
        crate::text::append_str(&mut x, ".tar.gz");
        let mut y = crate::text::chars_of("delve_*_");
        crate::text::append_str(&mut y, platform);
        crate::text::append_str(&mut y, "_");
        crate::text::append_str(&mut y, a.as_str());
        crate::text::append_str(&mut y, ".tar.gz");
        let mut r: Vec<String> = Vec::new();
        r.push(crate::text::string_from(x.as_slice()));
        r.push(crate::text::string_from(y.as_slice()));
        proof {
            assert(texts(r@) =~= delve_patterns(platform@, arch@));
        }
        r
    }
}

} // verus!
