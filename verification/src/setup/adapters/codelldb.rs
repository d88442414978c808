//! CodeLLDB, installed from its GitHub releases.

use crate::common::Error;
use crate::setup::adapters::texts;
use crate::setup::installer::{InstallMethod, InstallStatus};
use crate::setup::registry::{DebuggerInfo, DebuggerView, Platform};
use vstd::prelude::*;

verus! {

/// The installer of CodeLLDB.
pub struct CodeLldbInstaller;

/// What the CodeLLDB installer says of it.
pub open spec fn codelldb_view() -> DebuggerView {
    DebuggerView {
        id: "codelldb"@,
        name: "CodeLLDB"@,
        languages: seq!["c"@, "cpp"@, "rust"@],
        platforms: seq![Platform::Linux, Platform::MacOS, Platform::Windows],
        description: "Feature-rich LLDB-based debugger"@,
        primary: false,
    }
}

/// The release asset patterns of CodeLLDB for an architecture and
/// platform.
pub open spec fn codelldb_patterns(arch: Seq<char>, platform: Seq<char>) -> Seq<Seq<char>> {
    seq!["codelldb-"@ + arch + "-"@ + platform + ".vsix"@, "codelldb-"@ + arch + "-"@ + platform + "-*.vsix"@]
}

/// The extension of a file name (`Path::extension`): what follows its last
/// dot, unless that dot begins the name.
pub open spec fn extension_of(name: Seq<char>) -> Option<Seq<char>> {
    if exists|i: int| 0 < i < name.len() && name[i] == '.' {
        let i = choose|i: int|
            0 < i < name.len() && name[i] == '.' && forall|j: int| i < j < name.len() ==> name[j] != '.';
        Some(name.skip(i + 1))
    } else {
        None
    }
}

fn text_with(a: &str, b: &str, c: &str, d: &str, e: &str) -> (r: String)
    ensures
        r@ == a@ + b@ + c@ + d@ + e@,
{
    let mut m = crate::text::chars_of(a);
    crate::text::append_str(&mut m, b);
    crate::text::append_str(&mut m, c);
    crate::text::append_str(&mut m, d);
    crate::text::append_str(&mut m, e);
    crate::text::string_from(m.as_slice())
}

impl crate::setup::installer::Installer for CodeLldbInstaller {
    /// The debugger this installer installs.
    fn info(&self) -> (r: DebuggerInfo)
        ensures
            r@ == codelldb_view(),
    {
        let d = crate::setup::registry::entry(
            "codelldb",
            "CodeLLDB",
            vec!["c", "cpp", "rust"],
            vec![Platform::Linux, Platform::MacOS, Platform::Windows],
            "Feature-rich LLDB-based debugger",
            false,
        );
        proof {
            assert(d@.languages =~= codelldb_view().languages);
            assert(d@.platforms =~= codelldb_view().platforms);
        }
        d
    }
}

impl CodeLldbInstaller {
    /// The state of CodeLLDB: the managed copy with its recorded version,
    /// else `codelldb` on the `PATH` (version unknown).
    pub fn status(&self, managed: Option<(String, Option<String>)>, found: Option<String>) -> (r:
        InstallStatus)
        ensures
            match (managed, found) {
                (Some(m), _) => r == (InstallStatus::Installed { path: m.0, version: m.1 }),
                (None, Some(p)) => r == (InstallStatus::Installed { path: p, version: None }),
                (None, None) => r == InstallStatus::NotInstalled,
            },
    {
        match (managed, found) {
            (Some(m), _) => InstallStatus::Installed { path: m.0, version: m.1 },
            (None, Some(p)) => InstallStatus::Installed { path: p, version: None },
            (None, None) => InstallStatus::NotInstalled,
        }
    }

    /// How to get CodeLLDB: always its GitHub release for the machine.
    pub fn best_method(&self, arch: &str, platform: &str) -> (r: InstallMethod)
        ensures
            r matches InstallMethod::GitHubRelease { repo, asset_pattern } && repo@ == "vadimcn/codelldb"@
                && asset_pattern@ == "codelldb-"@ + arch@ + "-"@ + platform@ + ".vsix"@,
    {
        InstallMethod::GitHubRelease {
            repo: String::from_str("vadimcn/codelldb"),
            asset_pattern: text_with("codelldb-", arch, "-", platform, ".vsix"),
        }
    }

    /// The release asset patterns for an architecture and platform.
    pub fn asset_patterns(&self, arch: &str, platform: &str) -> (r: Vec<String>)
        ensures
            texts(r@) == codelldb_patterns(arch@, platform@),
    {
        let mut r: Vec<String> = Vec::new();
        r.push(text_with("codelldb-", arch, "-", platform, ".vsix"));
        r.push(text_with("codelldb-", arch, "-", platform, "-*.vsix"));
        proof {
            assert(texts(r@) =~= codelldb_patterns(arch@, platform@));
        }
        r
    }

    /// The version a release tag names: the tag without its leading `v`s.
    pub fn version_of_tag(&self, tag: &str) -> (r: String)
        ensures
            r@ == crate::setup::adapters::strip_leading(tag@, 'v'),
    {
        crate::setup::adapters::trim_leading(tag, 'v')
    }

    /// The error for an archive without the adapter where it belongs.
    pub fn missing_binary(&self, path: &str) -> (r: Error)
        ensures
            r matches Error::Internal(m) && m@ == "codelldb binary not found at expected location: "@ + path@,
    {
        let mut m = crate::text::chars_of("codelldb binary not found at expected location: ");
        crate::text::append_str(&mut m, path);
        Error::Internal(crate::text::string_from(m.as_slice()))
    }

    /// Whether a file is a shared library to be made executable: its
    /// extension is `so` or `dylib`.
    pub fn is_shared_library(&self, file_name: &str) -> (r: bool)
        ensures
            r == (extension_of(file_name@) == Some("so"@) || extension_of(file_name@) == Some("dylib"@)),
    {
        let cs = crate::text::chars_of(file_name);
        match crate::text::rfind_char(cs.as_slice(), '.') {
            Some(i) => {
                if i == 0 {
                    proof {
                        assert(!exists|k: int| 0 < k < cs@.len() && cs@[k] == '.');
                    }
                    return false;
                }
                proof {
                    let c = choose|k: int|
                        0 < k < cs@.len() && cs@[k] == '.' && forall|j: int| k < j < cs@.len() ==> cs@[j] != '.';
                    assert(0 < i < cs@.len() && cs@[i as int] == '.');
                    if c < i {
                        assert(cs@[i as int] != '.');
                    }
                    if c > i {
                        assert(cs@[c] != '.');
                    }
                }
                let n = cs.len();
                let ext = crate::text::slice_range(cs.as_slice(), i + 1, n);
                proof {
                    assert(ext@ =~= cs@.skip(i + 1));
                }
                crate::text::eq_str(ext.as_slice(), "so") || crate::text::eq_str(ext.as_slice(), "dylib")
            },
            None => {
                proof {
                    assert(!exists|k: int| 0 < k < cs@.len() && cs@[k] == '.');
                }
                false
            },
        }
    }
}

} // verus!
