//! The supported debuggers and what each one debugs.

use vstd::prelude::*;

verus! {

/// Supported platforms.
#[derive(Debug, Clone, Copy, PartialEq, Eq, Structural)]
pub enum Platform {
    Linux,
    MacOS,
    Windows,
}

impl Platform {
    /// The platform of an operating system, by the name that
    /// `std::env::consts::OS` gives it; any other system counts as Linux.
    pub fn current(os: &str) -> (r: Platform)
        ensures
            r == (if os@ == "macos"@ {
                Platform::MacOS
            } else if os@ == "windows"@ {
                Platform::Windows
            } else {
                Platform::Linux
            }),
    {
        let cs = crate::text::chars_of(os);
        if crate::text::eq_str(cs.as_slice(), "macos") {
            Platform::MacOS
        } else if crate::text::eq_str(cs.as_slice(), "windows") {
            Platform::Windows
        } else {
            Platform::Linux
        }
    }

    /// The platform's name.
    pub fn as_str(&self) -> (r: &'static str)
        ensures
            r@ == platform_name(*self),
    {
        match self {
            Platform::Linux => "linux",
            Platform::MacOS => "macos",
            Platform::Windows => "windows",
        }
    }
}

/// A platform's name.
pub open spec fn platform_name(p: Platform) -> Seq<char> {
    match p {
        Platform::Linux => "linux"@,
        Platform::MacOS => "macos"@,
        Platform::Windows => "windows"@,
    }
}

/// What is known of a debugger.
#[derive(Debug, Clone)]
pub struct DebuggerInfo {
    /// Its identifier, such as `lldb`.
    pub id: &'static str,
    /// Its display name.
    pub name: &'static str,
    /// The languages it debugs.
    pub languages: Vec<&'static str>,
    /// The platforms it runs on.
    pub platforms: Vec<Platform>,
    /// A short description.
    pub description: &'static str,
    /// Whether it is the first choice for its languages.
    pub primary: bool,
}

/// A debugger's data as plain values.
pub struct DebuggerView {
    pub id: Seq<char>,
    pub name: Seq<char>,
    pub languages: Seq<Seq<char>>,
    pub platforms: Seq<Platform>,
    pub description: Seq<char>,
    pub primary: bool,
}

impl View for DebuggerInfo {
    type V = DebuggerView;

    open spec fn view(&self) -> DebuggerView {
        DebuggerView {
            id: self.id@,
            name: self.name@,
            languages: self.languages@.map_values(|l: &'static str| l@),
            platforms: self.platforms@,
            description: self.description@,
            primary: self.primary,
        }
    }
}

/// The views of a sequence of debuggers.
pub open spec fn debugger_views(ds: Seq<DebuggerInfo>) -> Seq<DebuggerView> {
    ds.map_values(|d: DebuggerInfo| d@)
}

/// The registry: every supported debugger, in order.
pub open spec fn registry() -> Seq<DebuggerView> {
    seq![
        DebuggerView {
            id: "gdb"@,
            name: "GDB"@,
            languages: seq!["c"@, "cpp"@],
            platforms: seq![Platform::Linux, Platform::MacOS, Platform::Windows],
            description: "GDB native DAP adapter"@,
            primary: true,
        },
        DebuggerView {
            id: "cuda-gdb"@,
            name: "CUDA-GDB"@,
            languages: seq!["cuda"@, "c"@, "cpp"@],
            platforms: seq![Platform::Linux],
            description: "NVIDIA CUDA debugger with DAP support"@,
            primary: true,
        },
        DebuggerView {
            id: "lldb"@,
            name: "lldb-dap"@,
            languages: seq!["c"@, "cpp"@, "rust"@, "swift"@],
            platforms: seq![Platform::Linux, Platform::MacOS],
            description: "LLVM's native DAP adapter"@,
            primary: true,
        },
        DebuggerView {
            id: "codelldb"@,
            name: "CodeLLDB"@,
            languages: seq!["c"@, "cpp"@, "rust"@],
            platforms: seq![Platform::Linux, Platform::MacOS, Platform::Windows],
            description: "Feature-rich LLDB-based debugger"@,
            primary: false,
        },
        DebuggerView {
            id: "python"@,
            name: "debugpy"@,
            languages: seq!["python"@],
            platforms: seq![Platform::Linux, Platform::MacOS, Platform::Windows],
            description: "Microsoft's Python debugger"@,
            primary: true,
        },
        DebuggerView {
            id: "go"@,
            name: "Delve"@,
            languages: seq!["go"@],
            platforms: seq![Platform::Linux, Platform::MacOS, Platform::Windows],
            description: "Go debugger with DAP support"@,
            primary: true,
        },
        DebuggerView {
            id: "js-debug"@,
            name: "js-debug"@,
            languages: seq!["javascript"@, "typescript"@],
            platforms: seq![Platform::Linux, Platform::MacOS, Platform::Windows],
            description: "Microsoft's JavaScript/TypeScript debugger"@,
            primary: true,
        },
    ]
}

/// A debugger entry built from its parts.
pub(crate) fn entry(
    id: &'static str,
    name: &'static str,
    languages: Vec<&'static str>,
    platforms: Vec<Platform>,
    description: &'static str,
    primary: bool,
) -> (d: DebuggerInfo)
    ensures
        d.id == id,
        d.name == name,
        d.languages == languages,
        d.platforms == platforms,
        d.description == description,
        d.primary == primary,
{
    DebuggerInfo { id, name, languages, platforms, description, primary }
}

/// Every supported debugger, in order.
pub fn all_debuggers() -> (r: Vec<DebuggerInfo>)
    ensures
        debugger_views(r@) == registry(),
{
    let mut r: Vec<DebuggerInfo> = Vec::new();
    let d = entry("gdb", "GDB", vec!["c", "cpp"], vec![Platform::Linux, Platform::MacOS, Platform::Windows], "GDB native DAP adapter", true);
    proof {
        assert(d@.languages =~= registry()[0].languages);
        assert(d@.platforms =~= registry()[0].platforms);
    }
    r.push(d);
    let d = entry("cuda-gdb", "CUDA-GDB", vec!["cuda", "c", "cpp"], vec![Platform::Linux], "NVIDIA CUDA debugger with DAP support", true);
    proof {
        assert(d@.languages =~= registry()[1].languages);
        assert(d@.platforms =~= registry()[1].platforms);
    }
    r.push(d);
    let d = entry("lldb", "lldb-dap", vec!["c", "cpp", "rust", "swift"], vec![Platform::Linux, Platform::MacOS], "LLVM's native DAP adapter", true);
    proof {
        assert(d@.languages =~= registry()[2].languages);
        assert(d@.platforms =~= registry()[2].platforms);
    }
    r.push(d);
    let d = entry("codelldb", "CodeLLDB", vec!["c", "cpp", "rust"], vec![Platform::Linux, Platform::MacOS, Platform::Windows], "Feature-rich LLDB-based debugger", false);
    proof {
        assert(d@.languages =~= registry()[3].languages);
        assert(d@.platforms =~= registry()[3].platforms);
    }
    r.push(d);
    let d = entry("python", "debugpy", vec!["python"], vec![Platform::Linux, Platform::MacOS, Platform::Windows], "Microsoft's Python debugger", true);
    proof {
        assert(d@.languages =~= registry()[4].languages);
        assert(d@.platforms =~= registry()[4].platforms);
    }
    r.push(d);
    let d = entry("go", "Delve", vec!["go"], vec![Platform::Linux, Platform::MacOS, Platform::Windows], "Go debugger with DAP support", true);
    proof {
        assert(d@.languages =~= registry()[5].languages);
        assert(d@.platforms =~= registry()[5].platforms);
    }
    r.push(d);
    let d = entry("js-debug", "js-debug", vec!["javascript", "typescript"], vec![Platform::Linux, Platform::MacOS, Platform::Windows], "Microsoft's JavaScript/TypeScript debugger", true);
    proof {
        assert(d@.languages =~= registry()[6].languages);
        assert(d@.platforms =~= registry()[6].platforms);
    }
    r.push(d);
    proof {
        assert(debugger_views(r@) =~= registry());
    }
    r
}

/// The first debugger with the given id.
pub open spec fn debugger_with_id(ds: Seq<DebuggerView>, id: Seq<char>) -> Option<DebuggerView>
    decreases ds.len(),
{
    if ds.len() == 0 {
        None
    } else if ds[0].id == id {
        Some(ds[0])
    } else {
        debugger_with_id(ds.drop_first(), id)
    }
}

/// The debuggers that debug a language, in order.
pub open spec fn debuggers_of(ds: Seq<DebuggerView>, language: Seq<char>) -> Seq<DebuggerView>
    decreases ds.len(),
{
    if ds.len() == 0 {
        seq![]
    } else {
        let rest = debuggers_of(ds.drop_first(), language);
        if ds[0].languages.contains(language) {
            seq![ds[0]] + rest
        } else {
            rest
        }
    }
}

/// The first primary debugger for a language.
pub open spec fn primary_of(ds: Seq<DebuggerView>, language: Seq<char>) -> Option<DebuggerView>
    decreases ds.len(),
{
    if ds.len() == 0 {
        None
    } else if ds[0].languages.contains(language) && ds[0].primary {
        Some(ds[0])
    } else {
        primary_of(ds.drop_first(), language)
    }
}

/// Whether a debugger lists a language.
fn lists_language(d: &DebuggerInfo, language: &[char]) -> (r: bool)
    ensures
        r == d@.languages.contains(language@),
{
    let ghost ls = d@.languages;
    let mut k: usize = 0;
    while k < d.languages.len()
        invariant
            k <= d.languages@.len(),
            ls == d.languages@.map_values(|l: &'static str| l@),
            forall|j: int| 0 <= j < k ==> ls[j] != language@,
        decreases d.languages@.len() - k,
    {
        let l = crate::text::chars_of(d.languages[k]);
        if crate::text::seq_eq(l.as_slice(), language) {
            assert(ls[k as int] == language@);
            return true;
        }
        k = k + 1;
    }
    false
}

/// Whether a debugger has the given id.
fn has_id(d: &DebuggerInfo, id: &[char]) -> (r: bool)
    ensures
        r == (d@.id == id@),
{
    let c = crate::text::chars_of(d.id);
    crate::text::seq_eq(c.as_slice(), id)
}

/// The debugger with the given id.
pub fn get_debugger(id: &str) -> (r: Option<DebuggerInfo>)
    ensures
        match r {
            Some(d) => debugger_with_id(registry(), id@) == Some(d@),
            None => debugger_with_id(registry(), id@) is None,
        },
{
    let want = crate::text::chars_of(id);
    let mut rest = all_debuggers();
    while rest.len() > 0
        invariant
            debugger_with_id(registry(), id@) == debugger_with_id(debugger_views(rest@), id@),
            want@ == id@,
        decreases rest@.len(),
    {
        let ghost before = rest@;
        let d = rest.remove(0);
        proof {
            assert(debugger_views(rest@) =~= debugger_views(before).drop_first());
        }
        if has_id(&d, want.as_slice()) {
            return Some(d);
        }
    }
    None
}

/// The debuggers for a language, in registry order.
pub fn debuggers_for_language(language: &str) -> (r: Vec<DebuggerInfo>)
    ensures
        debugger_views(r@) == debuggers_of(registry(), language@),
{
    let want = crate::text::chars_of(language);
    let mut rest = all_debuggers();
    let mut out: Vec<DebuggerInfo> = Vec::new();
    while rest.len() > 0
        invariant
            debugger_views(out@) + debuggers_of(debugger_views(rest@), language@) == debuggers_of(registry(), language@),
            want@ == language@,
        decreases rest@.len(),
    {
        let ghost before = rest@;
        let d = rest.remove(0);
        proof {
            assert(debugger_views(rest@) =~= debugger_views(before).drop_first());
        }
        if lists_language(&d, want.as_slice()) {
            proof {
                assert(debugger_views(out@.push(d)) =~= debugger_views(out@) + seq![d@]);
                assert(debugger_views(out@) + (seq![d@] + debuggers_of(debugger_views(rest@), language@))
                    =~= debugger_views(out@) + seq![d@] + debuggers_of(debugger_views(rest@), language@));
            }
            out.push(d);
        }
    }
    proof {
        assert(debugger_views(out@) + seq![] =~= debugger_views(out@));
    }
    out
}

/// The primary debugger for a language.
pub fn primary_debugger_for_language(language: &str) -> (r: Option<DebuggerInfo>)
    ensures
        match r {
            Some(d) => primary_of(registry(), language@) == Some(d@),
            None => primary_of(registry(), language@) is None,
        },
{
    let want = crate::text::chars_of(language);
    let mut rest = all_debuggers();
    while rest.len() > 0
        invariant
            primary_of(registry(), language@) == primary_of(debugger_views(rest@), language@),
            want@ == language@,
        decreases rest@.len(),
    {
        let ghost before = rest@;
        let d = rest.remove(0);
        proof {
            assert(debugger_views(rest@) =~= debugger_views(before).drop_first());
        }
        if lists_language(&d, want.as_slice()) && d.primary {
            return Some(d);
        }
    }
    None
}

/// The installers there are, one per supported debugger.
#[derive(Debug, Clone, Copy, PartialEq, Eq, Structural)]
pub enum InstallerKind {
    Gdb,
    CudaGdb,
    Lldb,
    CodeLldb,
    Debugpy,
    Delve,
    JsDebug,
}

/// The installer for a debugger id.
pub open spec fn installer_for(id: Seq<char>) -> Option<InstallerKind> {
    if id == "gdb"@ {
        Some(InstallerKind::Gdb)
    } else if id == "cuda-gdb"@ {
        Some(InstallerKind::CudaGdb)
    } else if id == "lldb"@ {
        Some(InstallerKind::Lldb)
    } else if id == "codelldb"@ {
        Some(InstallerKind::CodeLldb)
    } else if id == "python"@ {
        Some(InstallerKind::Debugpy)
    } else if id == "go"@ {
        Some(InstallerKind::Delve)
    } else if id == "js-debug"@ {
        Some(InstallerKind::JsDebug)
    } else {
        None
    }
}

/// The installer for a debugger.
pub fn get_installer(id: &str) -> (r: Option<InstallerKind>)
    ensures
        r == installer_for(id@),
{
    let c = crate::text::chars_of(id);
    let c = c.as_slice();
    if crate::text::eq_str(c, "gdb") {
        Some(InstallerKind::Gdb)
    } else if crate::text::eq_str(c, "cuda-gdb") {
        Some(InstallerKind::CudaGdb)
    } else if crate::text::eq_str(c, "lldb") {
        Some(InstallerKind::Lldb)
    } else if crate::text::eq_str(c, "codelldb") {
        Some(InstallerKind::CodeLldb)
    } else if crate::text::eq_str(c, "python") {
        Some(InstallerKind::Debugpy)
    } else if crate::text::eq_str(c, "go") {
        Some(InstallerKind::Delve)
    } else if crate::text::eq_str(c, "js-debug") {
        Some(InstallerKind::JsDebug)
    } else {
        None
    }
}

/// The ids of the registry, in order.
pub open spec fn registry_ids() -> Seq<Seq<char>> {
    seq!["gdb"@, "cuda-gdb"@, "lldb"@, "codelldb"@, "python"@, "go"@, "js-debug"@]
}

/// The registry lists the seven debuggers in a fixed order, no id twice,
/// and every debugger with at least one language and one platform.
pub proof fn law_registry_entries()
    ensures
        registry().len() == registry_ids().len(),
        forall|i: int| 0 <= i < registry().len() ==> #[trigger] registry()[i].id == registry_ids()[i],
        forall|i: int, j: int| 0 <= i < j < registry().len() ==> registry()[i].id != registry()[j].id,
        forall|i: int|
            0 <= i < registry().len() ==> #[trigger] registry()[i].languages.len() > 0 && registry()[i].platforms.len()
                > 0,
{
    reveal_strlit("gdb");
    reveal_strlit("cuda-gdb");
    reveal_strlit("lldb");
    reveal_strlit("codelldb");
    reveal_strlit("python");
    reveal_strlit("go");
    reveal_strlit("js-debug");
    let r = registry();
    assert forall|i: int, j: int| 0 <= i < j < r.len() implies r[i].id != r[j].id by {
        if r[i].id == r[j].id {
            assert(r[i].id.len() == r[j].id.len());
            assert(r[i].id[0] == r[j].id[0]);
            assert(r[i].id[1] == r[j].id[1]);
        }
    }
}

/// A debugger is in the registry exactly when it has an installer.
pub proof fn law_installer_for_registered(id: Seq<char>)
    ensures
        (installer_for(id) is Some) == (debugger_with_id(registry(), id) is Some),
{
    reveal_with_fuel(debugger_with_id, 8);
}

} // verus!
