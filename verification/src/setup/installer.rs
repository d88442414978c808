//! Installation: what an installer reports, the package managers, and the
//! choice of a release asset.

use crate::setup::registry::Platform;
use vstd::prelude::*;

verus! {

/// Whether a debugger is installed.
#[derive(Debug, Clone)]
pub enum InstallStatus {
    /// Not installed.
    NotInstalled,
    /// Installed at a path, with its version when known.
    Installed { path: String, version: Option<String> },
    /// Installed but not working.
    Broken { path: String, reason: String },
}

/// How a debugger gets installed.
#[derive(Debug, Clone)]
pub enum InstallMethod {
    /// With the system's package manager.
    PackageManager { manager: PackageManager, package: String },
    /// From a GitHub release.
    GitHubRelease { repo: String, asset_pattern: String },
    /// From a URL.
    DirectDownload { url: String },
    /// With a language's package tool.
    LanguagePackage { tool: String, package: String },
    /// Out of a VS Code extension.
    VsCodeExtension { extension_id: String },
    /// Already on the `PATH`.
    AlreadyInstalled { path: String },
    /// Not possible on this platform.
    NotSupported { reason: String },
}

/// Package managers.
#[derive(Debug, Clone, Copy, PartialEq, Eq, Structural)]
pub enum PackageManager {
    Apt,
    Dnf,
    Pacman,
    Homebrew,
    Winget,
    Scoop,
    Cargo,
    Pip,
    Go,
}

/// The command that installs a package with a manager.
pub open spec fn install_command_text(m: PackageManager, package: Seq<char>) -> Seq<char> {
    let prefix = match m {
        PackageManager::Apt => "sudo apt install -y "@,
        PackageManager::Dnf => "sudo dnf install -y "@,
        PackageManager::Pacman => "sudo pacman -S --noconfirm "@,
        PackageManager::Homebrew => "brew install "@,
        PackageManager::Winget => "winget install "@,
        PackageManager::Scoop => "scoop install "@,
        PackageManager::Cargo => "cargo install "@,
        PackageManager::Pip => "pip3 install "@,
        PackageManager::Go => "go install "@,
    };
    prefix + package
}

/// The managers in detection order, each kept when its tool was found; the
/// flags give, in order, whether `apt`, `dnf`, `pacman`, `brew`, `winget`,
/// `scoop`, `cargo`, `pip3` or `pip`, and `go` were found.
pub open spec fn managers_found(found: Seq<bool>) -> Seq<PackageManager>
    recommends
        found.len() == 9,
{
    let all = seq![
        PackageManager::Apt,
        PackageManager::Dnf,
        PackageManager::Pacman,
        PackageManager::Homebrew,
        PackageManager::Winget,
        PackageManager::Scoop,
        PackageManager::Cargo,
        PackageManager::Pip,
        PackageManager::Go,
    ];
    kept(all, found, 9)
}

/// The first `n` managers whose flag is set, in order.
pub open spec fn kept(all: Seq<PackageManager>, found: Seq<bool>, n: int) -> Seq<PackageManager>
    decreases n,
{
    if n <= 0 {
        seq![]
    } else if found[n - 1] {
        kept(all, found, n - 1).push(all[n - 1])
    } else {
        kept(all, found, n - 1)
    }
}

/// The tools whose presence shows each manager, in detection order:
/// `apt`, `dnf`, `pacman`, `brew`, `winget`, `scoop`, `cargo`, `pip3` or
/// `pip`, and `go`.
pub open spec fn manager_tool_names() -> Seq<Seq<Seq<char>>> {
    seq![
        seq!["apt"@],
        seq!["dnf"@],
        seq!["pacman"@],
        seq!["brew"@],
        seq!["winget"@],
        seq!["scoop"@],
        seq!["cargo"@],
        seq!["pip3"@, "pip"@],
        seq!["go"@],
    ]
}

/// The names of tools.
pub open spec fn tool_views(v: Seq<&'static str>) -> Seq<Seq<char>> {
    v.map_values(|t: &'static str| t@)
}

/// The tools that `detect` looks for, per manager in detection order.
pub fn manager_tools() -> (r: Vec<Vec<&'static str>>)
    ensures
        r@.len() == 9,
        forall|i: int| 0 <= i < 9 ==> tool_views(#[trigger] r@[i]@) == manager_tool_names()[i],
{
    let r: Vec<Vec<&'static str>> = vec![
        vec!["apt"],
        vec!["dnf"],
        vec!["pacman"],
        vec!["brew"],
        vec!["winget"],
        vec!["scoop"],
        vec!["cargo"],
        vec!["pip3", "pip"],
        vec!["go"],
    ];
    proof {
        assert forall|i: int| 0 <= i < 9 implies tool_views(#[trigger] r@[i]@) == manager_tool_names()[i] by {
            assert(tool_views(r@[i]@) =~= manager_tool_names()[i]);
        }
    }
    r
}

/// Whether a tool is on the `PATH`, by `which::which`. What it answers
/// depends on the environment and the disk, so nothing is stated of it.
#[verifier::external_body]
fn tool_found(name: &str) -> (r: bool) {
    which::which(name).is_ok()
}

impl PackageManager {
    /// The managers whose tools are on the `PATH`, in detection order: each
    /// manager is kept when one of its tools (`manager_tools`) is found.
    pub fn detect() -> (r: Vec<PackageManager>)
        ensures
            exists|found: Seq<bool>| found.len() == 9 && r@ == #[trigger] managers_found(found),
    {
        let tools = manager_tools();
        let mut found: Vec<bool> = Vec::new();
        let mut i: usize = 0;
        while i < tools.len()
            invariant
                i <= tools@.len(),
                tools@.len() == 9,
                found@.len() == i,
            decreases tools@.len() - i,
        {
            let names = &tools[i];
            let mut any = false;
            let mut j: usize = 0;
            while j < names.len()
                decreases names@.len() - j,
            {
                if !any && tool_found(names[j]) {
                    any = true;
                }
                j = j + 1;
            }
            found.push(any);
            i = i + 1;
        }
        Self::from_found(found.as_slice())
    }

    /// The managers kept by the flags of `detect`, in order.
    pub fn from_found(found: &[bool]) -> (r: Vec<PackageManager>)
        requires
            found@.len() == 9,
        ensures
            r@ == managers_found(found@),
    {
        let all = vec![
            PackageManager::Apt,
            PackageManager::Dnf,
            PackageManager::Pacman,
            PackageManager::Homebrew,
            PackageManager::Winget,
            PackageManager::Scoop,
            PackageManager::Cargo,
            PackageManager::Pip,
            PackageManager::Go,
        ];
        let ghost order = seq![
            PackageManager::Apt,
            PackageManager::Dnf,
            PackageManager::Pacman,
            PackageManager::Homebrew,
            PackageManager::Winget,
            PackageManager::Scoop,
            PackageManager::Cargo,
            PackageManager::Pip,
            PackageManager::Go,
        ];
        proof {
            assert(all@ =~= order);
        }
        let mut out: Vec<PackageManager> = Vec::new();
        let mut k: usize = 0;
        while k < 9
            invariant
                k <= 9,
                found@.len() == 9,
                all@ == order,
                order.len() == 9,
                out@ == kept(order, found@, k as int),
            decreases 9 - k,
        {
            if found[k] {
                out.push(all[k]);
            }
            k = k + 1;
            proof {
                assert(kept(order, found@, k as int) == if found@[k - 1] {
                    kept(order, found@, k - 1).push(order[k - 1])
                } else {
                    kept(order, found@, k - 1)
                });
            }
        }
        out
    }

    /// The command that installs a package with this manager.
    pub fn install_command(&self, package: &str) -> (r: String)
        ensures
            r@ == install_command_text(*self, package@),
    {
        let prefix = match self {
            PackageManager::Apt => "sudo apt install -y ",
            PackageManager::Dnf => "sudo dnf install -y ",
            PackageManager::Pacman => "sudo pacman -S --noconfirm ",
            PackageManager::Homebrew => "brew install ",
            PackageManager::Winget => "winget install ",
            PackageManager::Scoop => "scoop install ",
            PackageManager::Cargo => "cargo install ",
            PackageManager::Pip => "pip3 install ",
            PackageManager::Go => "go install ",
        };
        let mut m = crate::text::chars_of(prefix);
        crate::text::append_str(&mut m, package);
        crate::text::string_from(m.as_slice())
    }
}

/// Options of an installation.
#[derive(Debug, Clone)]
pub struct InstallOptions {
    /// A version to install.
    pub version: Option<String>,
    /// Reinstall even when installed.
    pub force: bool,
}

impl Default for InstallOptions {
    fn default() -> (r: Self)
        ensures
            r.version is None,
            !r.force,
    {
        InstallOptions { version: None, force: false }
    }
}

/// What an installation gives.
#[derive(Debug, Clone)]
pub struct InstallResult {
    /// The installed program.
    pub path: String,
    /// Its version.
    pub version: Option<String>,
    /// The arguments the adapter needs.
    pub args: Vec<String>,
}

/// A GitHub release.
#[derive(Debug)]
pub struct GitHubRelease {
    pub tag_name: String,
    pub name: Option<String>,
    pub assets: Vec<GitHubAsset>,
}

/// A file attached to a GitHub release.
#[derive(Debug)]
pub struct GitHubAsset {
    pub name: String,
    pub browser_download_url: String,
    pub size: u64,
}

/// An asset name matches a pattern when, both lower-cased, the name holds
/// every `*`-separated part of the pattern.
pub open spec fn asset_matches(name: Seq<char>, pattern: Seq<char>) -> bool {
    let parts = crate::text::pieces(crate::text::lowercase_of(pattern), '*');
    forall|j: int| 0 <= j < parts.len() ==> crate::text::contains_seq(crate::text::lowercase_of(name), #[trigger] parts[j])
}

/// The index of the first asset from `k` on that matches the pattern.
pub open spec fn asset_index(assets: Seq<GitHubAsset>, pattern: Seq<char>, k: int) -> Option<int>
    decreases assets.len() - k,
{
    if k < 0 || k >= assets.len() {
        None
    } else if asset_matches(assets[k].name@, pattern) {
        Some(k)
    } else {
        asset_index(assets, pattern, k + 1)
    }
}

/// The asset that the patterns from index `i` on pick: for the first
/// pattern that some asset matches, the first asset that matches it.
pub open spec fn picked_asset(assets: Seq<GitHubAsset>, patterns: Seq<Seq<char>>, i: int) -> Option<int>
    decreases patterns.len() - i,
{
    if i < 0 || i >= patterns.len() {
        None
    } else {
        match asset_index(assets, patterns[i], 0) {
            Some(k) => Some(k),
            None => picked_asset(assets, patterns, i + 1),
        }
    }
}

proof fn lemma_asset_index(assets: Seq<GitHubAsset>, pattern: Seq<char>, k: int)
    ensures
        asset_index(assets, pattern, k) matches Some(j) ==> 0 <= j < assets.len(),
    decreases assets.len() - k,
{
    if !(k < 0 || k >= assets.len()) && !asset_matches(assets[k].name@, pattern) {
        lemma_asset_index(assets, pattern, k + 1);
    }
}

/// Whether a lower-cased name holds every part of a lower-cased pattern.
fn holds_all(name: &[char], parts: &Vec<Vec<char>>) -> (r: bool)
    ensures
        r == forall|j: int| 0 <= j < parts@.len() ==> crate::text::contains_seq(name@, #[trigger] parts@[j]@),
{
    let mut j: usize = 0;
    while j < parts.len()
        invariant
            j <= parts@.len(),
            forall|i: int| 0 <= i < j ==> crate::text::contains_seq(name@, #[trigger] parts@[i]@),
        decreases parts@.len() - j,
    {
        if !crate::text::contains(name, parts[j].as_slice()) {
            return false;
        }
        j = j + 1;
    }
    true
}

/// Whether an asset name matches a pattern.
fn name_matches(name: &String, pattern: &[char]) -> (r: bool)
    ensures
        r == asset_matches(name@, pattern@),
{
    let n = crate::text::to_lowercase(crate::text::chars_of(name.as_str()).as_slice());
    let p = crate::text::to_lowercase(pattern);
    let parts = crate::text::split_on(p.as_slice(), '*');
    let r = holds_all(n.as_slice(), &parts);
    proof {
        let ps = crate::text::pieces(crate::text::lowercase_of(pattern@), '*');
        let ln = crate::text::lowercase_of(name@);
        assert(crate::text::views(parts@) == ps);
        assert(ps.len() == parts@.len());
        assert(n@ == ln);
        if r {
            assert forall|j: int| 0 <= j < ps.len() implies crate::text::contains_seq(ln, #[trigger] ps[j]) by {
                assert(parts@[j]@ == ps[j]);
                assert(crate::text::contains_seq(n@, parts@[j]@));
            }
        } else {
            let j = choose|j: int| 0 <= j < parts@.len() && !crate::text::contains_seq(n@, #[trigger] parts@[j]@);
            assert(parts@[j]@ == ps[j]);
            assert(!crate::text::contains_seq(ln, ps[j]));
        }
    }
    r
}

impl GitHubRelease {
    /// The asset that the patterns pick: the patterns are tried in order,
    /// and for the first that an asset matches, the first matching asset.
    pub fn find_asset(&self, patterns: &[&str]) -> (r: Option<&GitHubAsset>)
        ensures
            match picked_asset(self.assets@, patterns@.map_values(|p: &str| p@), 0) {
                Some(k) => r == Some(&self.assets@[k]),
                None => r is None,
            },
    {
        let ghost ps = patterns@.map_values(|p: &str| p@);
        let mut i: usize = 0;
        while i < patterns.len()
            invariant
                i <= patterns@.len(),
                ps == patterns@.map_values(|p: &str| p@),
                picked_asset(self.assets@, ps, 0) == picked_asset(self.assets@, ps, i as int),
            decreases patterns@.len() - i,
        {
            let pattern = crate::text::chars_of(patterns[i]);
            proof {
                lemma_asset_index(self.assets@, ps[i as int], 0);
            }
            let mut k: usize = 0;
            while k < self.assets.len()
                invariant
                    k <= self.assets@.len(),
                    pattern@ == ps[i as int],
                    i < patterns@.len(),
                    ps == patterns@.map_values(|p: &str| p@),
                    picked_asset(self.assets@, ps, 0) == picked_asset(self.assets@, ps, i as int),
                    asset_index(self.assets@, ps[i as int], 0) == asset_index(self.assets@, ps[i as int], k as int),
                decreases self.assets@.len() - k,
            {
                if name_matches(&self.assets[k].name, pattern.as_slice()) {
                    proof {
                        assert(asset_index(self.assets@, ps[i as int], k as int) == Some(k as int));
                        assert(picked_asset(self.assets@, ps, i as int) == Some(k as int));
                    }
                    return Some(&self.assets[k]);
                }
                k = k + 1;
            }
            i = i + 1;
        }
        None
    }
}

/// The name a platform has in release asset names.
pub open spec fn platform_text(p: Platform) -> Seq<char> {
    match p {
        Platform::Linux => "linux"@,
        Platform::MacOS => "darwin"@,
        Platform::Windows => "windows"@,
    }
}

/// The name a platform has in release asset names.
pub fn platform_str(p: Platform) -> (r: &'static str)
    ensures
        r@ == platform_text(p),
{
    match p {
        Platform::Linux => "linux",
        Platform::MacOS => "darwin",
        Platform::Windows => "windows",
    }
}

/// The name an architecture (as `std::env::consts::ARCH` gives it) has in
/// release asset names.
pub open spec fn arch_text(arch: Seq<char>) -> Seq<char> {
    if arch == "x86_64"@ {
        "x86_64"@
    } else if arch == "aarch64"@ {
        "aarch64"@
    } else if arch == "x86"@ {
        "i686"@
    } else {
        "unknown"@
    }
}

/// The name an architecture has in release asset names.
pub fn arch_str(arch: &str) -> (r: &'static str)
    ensures
        r@ == arch_text(arch@),
{
    let a = crate::text::chars_of(arch);
    if crate::text::eq_str(a.as_slice(), "x86_64") {
        "x86_64"
    } else if crate::text::eq_str(a.as_slice(), "aarch64") {
        "aarch64"
    } else if crate::text::eq_str(a.as_slice(), "x86") {
        "i686"
    } else {
        "unknown"
    }
}

/// The names of a release's assets.
pub open spec fn asset_names(assets: Seq<GitHubAsset>) -> Seq<Seq<char>> {
    Seq::new(assets.len(), |i: int| assets[i].name@)
}

/// The error for a release with no asset for the machine: what was sought,
/// for which architecture and platform, and the assets there are.
pub fn no_release_error(what: &str, arch: &str, platform: &str, assets: &[GitHubAsset]) -> (r:
    crate::common::Error)
    ensures
        r matches crate::common::Error::Internal(m) && m@ == "No "@ + what@ + " release found for "@
            + arch@ + " "@ + platform@ + ". Available assets: "@ + crate::text::debug_names_text(
            asset_names(assets@),
        ),
{
    let mut names: Vec<String> = Vec::new();
    let mut i: usize = 0;
    while i < assets.len()
        invariant
            i <= assets@.len(),
            names@.map_values(|s: String| s@) == asset_names(assets@).take(i as int),
        decreases assets@.len() - i,
    {
        let ghost before = names@;
        let n = assets[i].name.clone();
        names.push(n);
        proof {
            assert(names@ == before.push(n));
            assert(names@.map_values(|s: String| s@) =~= before.map_values(|s: String| s@).push(n@));
            assert(names@.map_values(|s: String| s@) =~= asset_names(assets@).take(i + 1));
        }
        i = i + 1;
    }
    proof {
        assert(asset_names(assets@).take(assets@.len() as int) =~= asset_names(assets@));
    }
    let shown = crate::text::debug_names(&names);
    let mut m = crate::text::chars_of("No ");
    crate::text::append_str(&mut m, what);
    crate::text::append_str(&mut m, " release found for ");
    crate::text::append_str(&mut m, arch);
    crate::text::append_str(&mut m, " ");
    crate::text::append_str(&mut m, platform);
    crate::text::append_str(&mut m, ". Available assets: ");
    crate::text::append_str(&mut m, shown.as_str());
    crate::common::Error::Internal(crate::text::string_from(m.as_slice()))
}

/// Whether a manager is among those found.
pub fn has_manager(managers: &[PackageManager], m: PackageManager) -> (r: bool)
    ensures
        r == managers@.contains(m),
{
    let mut i: usize = 0;
    while i < managers.len()
        invariant
            i <= managers@.len(),
            forall|j: int| 0 <= j < i ==> managers@[j] != m,
        decreases managers@.len() - i,
    {
        if managers[i] == m {
            return true;
        }
        i = i + 1;
    }
    false
}

/// An installer of one debugger.
pub trait Installer {
    /// The debugger it installs.
    fn info(&self) -> crate::setup::registry::DebuggerInfo;
}

/// How a debugger's state reads in the list of debuggers.
pub open spec fn status_label_text(s: Option<InstallStatus>) -> Seq<char> {
    match s {
        Some(InstallStatus::Installed { version: Some(v), .. }) => "installed ("@ + v@ + ")"@,
        Some(InstallStatus::Installed { version: None, .. }) => "installed"@,
        Some(InstallStatus::Broken { reason, .. }) => "broken: "@ + reason@,
        _ => "not installed"@,
    }
}

/// How a debugger's state reads in the list of debuggers (`None` when it
/// could not be told).
pub fn status_label(s: &Option<InstallStatus>) -> (r: String)
    ensures
        r@ == status_label_text(*s),
{
    match s {
        Some(InstallStatus::Installed { version: Some(v), .. }) => {
            let mut m = crate::text::chars_of("installed (");
            crate::text::append_str(&mut m, v.as_str());
            crate::text::append_str(&mut m, ")");
            crate::text::string_from(m.as_slice())
        },
        Some(InstallStatus::Installed { version: None, .. }) => String::from_str("installed"),
        Some(InstallStatus::Broken { reason, .. }) => {
            let mut m = crate::text::chars_of("broken: ");
            crate::text::append_str(&mut m, reason.as_str());
            crate::text::string_from(m.as_slice())
        },
        _ => String::from_str("not installed"),
    }
}

/// The mark before a debugger in the list: a tick when installed, a cross
/// when broken, a space otherwise.
pub fn status_mark(s: &Option<InstallStatus>) -> (r: &'static str)
    ensures
        r@ == match s {
            Some(InstallStatus::Installed { .. }) => "✓"@,
            Some(InstallStatus::Broken { .. }) => "✗"@,
            _ => " "@,
        },
{
    match s {
        Some(InstallStatus::Installed { .. }) => "✓",
        Some(InstallStatus::Broken { .. }) => "✗",
        _ => " ",
    }
}

/// The path a state names, installed or broken.
pub fn status_path(s: &Option<InstallStatus>) -> (r: Option<String>)
    ensures
        r == match s {
            Some(InstallStatus::Installed { path, .. }) => Some(*path),
            Some(InstallStatus::Broken { path, .. }) => Some(*path),
            _ => None::<String>,
        },
{
    match s {
        Some(InstallStatus::Installed { path, .. }) => Some(path.clone()),
        Some(InstallStatus::Broken { path, .. }) => Some(path.clone()),
        _ => None,
    }
}

/// The permission bits of a file made executable: its mode with read,
/// write and execute for the owner and read and execute for everyone else
/// added (`0o755`), every other bit kept.
pub fn executable_mode(mode: u32) -> (r: u32)
    ensures
        r == mode | 0o755u32,
        r & 0o755u32 == 0o755u32,
        r & !0o755u32 == mode & !0o755u32,
{
    let r = mode | 0o755u32;
    assert(r & 0o755u32 == 0o755u32 && r & !0o755u32 == mode & !0o755u32) by (bit_vector)
        requires
            r == mode | 0o755u32,
    ;
    r
}

} // verus!
