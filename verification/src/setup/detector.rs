//! Project type detection, from the names of the entries of a project's
//! directory, and the debuggers each project type calls for.

use crate::setup::registry::{debugger_with_id, installer_for, registry};
use vstd::prelude::*;

verus! {

/// A kind of project.
#[derive(Debug, Clone, Copy, PartialEq, Eq, Hash, Structural)]
pub enum ProjectType {
    Rust,
    Cuda,
    Go,
    Python,
    JavaScript,
    TypeScript,
    C,
    Cpp,
    CSharp,
    Java,
}

/// The extension of a file name, as `Path::extension` gives it: the text
/// after the last `.`, unless the name is `..` or its only `.` comes first.
pub open spec fn extension_of(name: Seq<char>) -> Option<Seq<char>> {
    if name == ".."@ {
        None
    } else {
        match crate::ipc::protocol::last_index(name, '.') {
            Some(i) => if i == 0 {
                None
            } else {
                Some(name.skip(i + 1))
            },
            None => None,
        }
    }
}

/// Some entry has the extension.
pub open spec fn has_extension(names: Seq<Seq<char>>, ext: Seq<char>) -> bool {
    exists|i: int| 0 <= i < names.len() && #[trigger] extension_of(names[i]) == Some(ext)
}

/// Some entry has the name.
pub open spec fn has_entry(names: Seq<Seq<char>>, name: Seq<char>) -> bool {
    names.contains(name)
}

/// The project holds C++ sources or headers.
pub open spec fn has_cpp(names: Seq<Seq<char>>) -> bool {
    has_extension(names, "cpp"@) || has_extension(names, "cc"@) || has_extension(names, "cxx"@)
        || has_extension(names, "hpp"@) || has_extension(names, "hxx"@)
}

/// The project holds C sources or headers.
pub open spec fn has_c(names: Seq<Seq<char>>) -> bool {
    has_extension(names, "c"@) || has_extension(names, "h"@)
}

/// `t` when `b` holds, else nothing.
pub open spec fn when(b: bool, t: ProjectType) -> Seq<ProjectType> {
    if b {
        seq![t]
    } else {
        seq![]
    }
}

/// The project types that a directory's entries show, in this order: Rust,
/// CUDA, Go, Python, JavaScript or TypeScript, C or C++, C#, Java.
pub open spec fn project_types(names: Seq<Seq<char>>) -> Seq<ProjectType> {
    let build = has_entry(names, "CMakeLists.txt"@) || has_entry(names, "Makefile"@) || has_entry(names, "configure"@)
        || has_entry(names, "meson.build"@);
    when(has_entry(names, "Cargo.toml"@), ProjectType::Rust)
        + when(has_extension(names, "cu"@), ProjectType::Cuda)
        + when(has_entry(names, "go.mod"@) || has_entry(names, "go.sum"@), ProjectType::Go)
        + when(
            has_entry(names, "pyproject.toml"@) || has_entry(names, "setup.py"@) || has_entry(names, "requirements.txt"@)
                || has_entry(names, "Pipfile"@),
            ProjectType::Python,
        )
        + when(has_entry(names, "package.json"@) && has_entry(names, "tsconfig.json"@), ProjectType::TypeScript)
        + when(has_entry(names, "package.json"@) && !has_entry(names, "tsconfig.json"@), ProjectType::JavaScript)
        + when(build && (has_cpp(names) || !has_c(names)), ProjectType::Cpp)
        + when(build && !has_cpp(names) && has_c(names), ProjectType::C)
        + when(has_extension(names, "csproj"@) || has_extension(names, "sln"@), ProjectType::CSharp)
        + when(
            has_entry(names, "pom.xml"@) || has_entry(names, "build.gradle"@) || has_entry(names, "build.gradle.kts"@),
            ProjectType::Java,
        )
}

/// The extension of a file name.
fn extension(name: &[char]) -> (r: Option<Vec<char>>)
    ensures
        match r {
            Some(e) => extension_of(name@) == Some(e@),
            None => extension_of(name@) is None,
        },
{
    if crate::text::eq_str(name, "..") {
        return None;
    }
    match crate::text::rfind_char(name, '.') {
        Some(i) => {
            proof {
                crate::ipc::protocol::lemma_last_index(name@, '.', i as int);
            }
            let n = name.len();
            assert(i < n);
            if i == 0 {
                None
            } else {
                let e = crate::text::slice_range(name, i + 1, n);
                proof {
                    assert(e@ =~= name@.skip(i + 1));
                }
                Some(e)
            }
        },
        None => {
            proof {
                crate::ipc::protocol::lemma_no_index(name@, '.');
            }
            None
        },
    }
}

/// Whether some entry has the extension.
fn any_extension(names: &[String], ext: &str) -> (r: bool)
    ensures
        r == has_extension(names@.map_values(|n: String| n@), ext@),
{
    let ghost ns = names@.map_values(|n: String| n@);
    let mut k: usize = 0;
    while k < names.len()
        invariant
            k <= names@.len(),
            ns == names@.map_values(|n: String| n@),
            forall|j: int| 0 <= j < k ==> extension_of(#[trigger] ns[j]) != Some(ext@),
        decreases names@.len() - k,
    {
        let cs = crate::text::chars_of(names[k].as_str());
        match extension(cs.as_slice()) {
            Some(e) => {
                if crate::text::eq_str(e.as_slice(), ext) {
                    assert(extension_of(ns[k as int]) == Some(ext@));
                    return true;
                }
            },
            None => {},
        }
        k = k + 1;
    }
    false
}

/// Whether some entry has the name.
fn any_entry(names: &[String], name: &str) -> (r: bool)
    ensures
        r == has_entry(names@.map_values(|n: String| n@), name@),
{
    let ghost ns = names@.map_values(|n: String| n@);
    let mut k: usize = 0;
    while k < names.len()
        invariant
            k <= names@.len(),
            ns == names@.map_values(|n: String| n@),
            forall|j: int| 0 <= j < k ==> ns[j] != name@,
        decreases names@.len() - k,
    {
        let cs = crate::text::chars_of(names[k].as_str());
        if crate::text::eq_str(cs.as_slice(), name) {
            assert(ns[k as int] == name@);
            return true;
        }
        k = k + 1;
    }
    false
}

/// The project types that a directory's entries (their file names) show.
pub fn detect_project_types(names: &[String]) -> (r: Vec<ProjectType>)
    ensures
        r@ == project_types(names@.map_values(|n: String| n@)),
{
    let ghost ns = names@.map_values(|n: String| n@);
    let rust = any_entry(names, "Cargo.toml");
    let cuda = any_extension(names, "cu");
    let go = any_entry(names, "go.mod") || any_entry(names, "go.sum");
    let python = any_entry(names, "pyproject.toml") || any_entry(names, "setup.py") || any_entry(
        names,
        "requirements.txt",
    ) || any_entry(names, "Pipfile");
    let package = any_entry(names, "package.json");
    let ts = any_entry(names, "tsconfig.json");
    let build = any_entry(names, "CMakeLists.txt") || any_entry(names, "Makefile") || any_entry(
        names,
        "configure",
    ) || any_entry(names, "meson.build");
    let cpp = any_extension(names, "cpp") || any_extension(names, "cc") || any_extension(names, "cxx")
        || any_extension(names, "hpp") || any_extension(names, "hxx");
    let c = any_extension(names, "c") || any_extension(names, "h");
    let csharp = any_extension(names, "csproj") || any_extension(names, "sln");
    let java = any_entry(names, "pom.xml") || any_entry(names, "build.gradle") || any_entry(names, "build.gradle.kts");
    proof {
        assert(cpp == has_cpp(ns));
        assert(c == has_c(ns));
    }
    collect_types(rust, cuda, go, python, package, ts, build, cpp, c, csharp, java)
}

/// The project types that the detected facts give, in order.
fn collect_types(
    rust: bool,
    cuda: bool,
    go: bool,
    python: bool,
    package: bool,
    ts: bool,
    build: bool,
    cpp: bool,
    c: bool,
    csharp: bool,
    java: bool,
) -> (r: Vec<ProjectType>)
    ensures
        r@ == when(rust, ProjectType::Rust) + when(cuda, ProjectType::Cuda) + when(go, ProjectType::Go) + when(
            python,
            ProjectType::Python,
        ) + when(package && ts, ProjectType::TypeScript) + when(package && !ts, ProjectType::JavaScript) + when(
            build && (cpp || !c),
            ProjectType::Cpp,
        ) + when(build && !cpp && c, ProjectType::C) + when(csharp, ProjectType::CSharp) + when(
            java,
            ProjectType::Java,
        ),
{
    let mut types: Vec<ProjectType> = Vec::new();
    push_when(&mut types, rust, ProjectType::Rust);
    push_when(&mut types, cuda, ProjectType::Cuda);
    push_when(&mut types, go, ProjectType::Go);
    push_when(&mut types, python, ProjectType::Python);
    push_when(&mut types, package && ts, ProjectType::TypeScript);
    push_when(&mut types, package && !ts, ProjectType::JavaScript);
    push_when(&mut types, build && (cpp || !c), ProjectType::Cpp);
    push_when(&mut types, build && !cpp && c, ProjectType::C);
    push_when(&mut types, csharp, ProjectType::CSharp);
    push_when(&mut types, java, ProjectType::Java);
    proof {
        assert(seq![] + when(rust, ProjectType::Rust) =~= when(rust, ProjectType::Rust));
    }
    types
}

/// Appends `t` when `b` holds.
fn push_when(v: &mut Vec<ProjectType>, b: bool, t: ProjectType)
    ensures
        final(v)@ == old(v)@ + when(b, t),
{
    if b {
        v.push(t);
        proof {
            assert(old(v)@.push(t) =~= old(v)@ + seq![t]);
        }
    } else {
        proof {
            assert(old(v)@ + seq![] =~= old(v)@);
        }
    }
}

/// The debuggers recommended for a project type, best first.
pub open spec fn recommended(project: ProjectType) -> Seq<Seq<char>> {
    match project {
        ProjectType::Rust => seq!["codelldb"@, "lldb"@],
        ProjectType::Cuda => seq!["cuda-gdb"@],
        ProjectType::Go => seq!["go"@],
        ProjectType::Python => seq!["python"@],
        ProjectType::JavaScript | ProjectType::TypeScript => seq!["js-debug"@],
        ProjectType::C | ProjectType::Cpp => seq!["lldb"@, "codelldb"@],
        ProjectType::CSharp => seq![],
        ProjectType::Java => seq![],
    }
}

/// The debuggers recommended for a project type, best first.
pub fn debuggers_for_project(project: &ProjectType) -> (r: Vec<&'static str>)
    ensures
        r@.map_values(|s: &'static str| s@) == recommended(*project),
{
    let r: Vec<&'static str> = match project {
        ProjectType::Rust => vec!["codelldb", "lldb"],
        ProjectType::Cuda => vec!["cuda-gdb"],
        ProjectType::Go => vec!["go"],
        ProjectType::Python => vec!["python"],
        ProjectType::JavaScript | ProjectType::TypeScript => vec!["js-debug"],
        ProjectType::C | ProjectType::Cpp => vec!["lldb", "codelldb"],
        ProjectType::CSharp => Vec::new(),
        ProjectType::Java => Vec::new(),
    };
    proof {
        assert(r@.map_values(|s: &'static str| s@) =~= recommended(*project));
    }
    r
}

/// A project type's place in the order that detection reports types in.
pub open spec fn rank(t: ProjectType) -> int {
    match t {
        ProjectType::Rust => 0,
        ProjectType::Cuda => 1,
        ProjectType::Go => 2,
        ProjectType::Python => 3,
        ProjectType::TypeScript => 4,
        ProjectType::JavaScript => 5,
        ProjectType::Cpp => 6,
        ProjectType::C => 7,
        ProjectType::CSharp => 8,
        ProjectType::Java => 9,
    }
}

/// The types come in strictly increasing order (so none twice).
pub open spec fn in_order(s: Seq<ProjectType>) -> bool {
    forall|i: int, j: int| 0 <= i < j < s.len() ==> rank(#[trigger] s[i]) < rank(#[trigger] s[j])
}

/// Every type of `s` comes before `t`.
pub open spec fn all_before(s: Seq<ProjectType>, t: ProjectType) -> bool {
    forall|i: int| 0 <= i < s.len() ==> rank(#[trigger] s[i]) < rank(t)
}

proof fn lemma_when_step(a: Seq<ProjectType>, b: bool, t: ProjectType, next: ProjectType)
    requires
        in_order(a),
        all_before(a, t),
        rank(t) < rank(next),
    ensures
        in_order(a + when(b, t)),
        all_before(a + when(b, t), next),
{
}

proof fn lemma_contains_when(a: Seq<ProjectType>, b: bool, t: ProjectType, x: ProjectType)
    ensures
        (a + when(b, t)).contains(x) == (a.contains(x) || (b && x == t)),
{
    let s = a + when(b, t);
    if s.contains(x) {
        let i = choose|i: int| 0 <= i < s.len() && s[i] == x;
        if i < a.len() {
            assert(a[i] == x);
        }
    }
    if a.contains(x) {
        let i = choose|i: int| 0 <= i < a.len() && a[i] == x;
        assert(s[i] == x);
    }
    if b && x == t {
        assert(s[a.len() as int] == x);
    }
}

/// The types for these ten conditions, in the order detection tries them.
pub open spec fn chain(
    c1: bool, c2: bool, c3: bool, c4: bool, c5: bool, c6: bool, c7: bool, c8: bool, c9: bool, c10: bool,
) -> Seq<ProjectType> {
    when(c1, ProjectType::Rust) + when(c2, ProjectType::Cuda) + when(c3, ProjectType::Go) + when(
        c4,
        ProjectType::Python,
    ) + when(c5, ProjectType::TypeScript) + when(c6, ProjectType::JavaScript) + when(c7, ProjectType::Cpp) + when(
        c8,
        ProjectType::C,
    ) + when(c9, ProjectType::CSharp) + when(c10, ProjectType::Java)
}

/// The condition among the ten that reports a type.
pub open spec fn condition_for(x: ProjectType, c1: bool, c2: bool, c3: bool, c4: bool, c5: bool, c6: bool, c7: bool, c8: bool, c9: bool, c10: bool) -> bool {
    match x {
        ProjectType::Rust => c1,
        ProjectType::Cuda => c2,
        ProjectType::Go => c3,
        ProjectType::Python => c4,
        ProjectType::TypeScript => c5,
        ProjectType::JavaScript => c6,
        ProjectType::Cpp => c7,
        ProjectType::C => c8,
        ProjectType::CSharp => c9,
        ProjectType::Java => c10,
    }
}

proof fn lemma_chain(c1: bool, c2: bool, c3: bool, c4: bool, c5: bool, c6: bool, c7: bool, c8: bool, c9: bool, c10: bool)
    ensures
        in_order(chain(c1, c2, c3, c4, c5, c6, c7, c8, c9, c10)),
        !(c1 || c2 || c3 || c4 || c5 || c6 || c7 || c8 || c9 || c10) ==> chain(c1, c2, c3, c4, c5, c6, c7, c8, c9, c10).len() == 0,
{
    let p0 = Seq::<ProjectType>::empty();
    lemma_when_step(p0, c1, ProjectType::Rust, ProjectType::Cuda);
    let p1 = p0 + when(c1, ProjectType::Rust);
    assert(p1 =~= when(c1, ProjectType::Rust));
    lemma_when_step(p1, c2, ProjectType::Cuda, ProjectType::Go);
    let p2 = p1 + when(c2, ProjectType::Cuda);
    lemma_when_step(p2, c3, ProjectType::Go, ProjectType::Python);
    let p3 = p2 + when(c3, ProjectType::Go);
    lemma_when_step(p3, c4, ProjectType::Python, ProjectType::TypeScript);
    let p4 = p3 + when(c4, ProjectType::Python);
    lemma_when_step(p4, c5, ProjectType::TypeScript, ProjectType::JavaScript);
    let p5 = p4 + when(c5, ProjectType::TypeScript);
    lemma_when_step(p5, c6, ProjectType::JavaScript, ProjectType::Cpp);
    let p6 = p5 + when(c6, ProjectType::JavaScript);
    lemma_when_step(p6, c7, ProjectType::Cpp, ProjectType::C);
    let p7 = p6 + when(c7, ProjectType::Cpp);
    lemma_when_step(p7, c8, ProjectType::C, ProjectType::CSharp);
    let p8 = p7 + when(c8, ProjectType::C);
    lemma_when_step(p8, c9, ProjectType::CSharp, ProjectType::Java);
    let p9 = p8 + when(c9, ProjectType::CSharp);
    let p10 = p9 + when(c10, ProjectType::Java);
    assert(in_order(p10));
    assert(chain(c1, c2, c3, c4, c5, c6, c7, c8, c9, c10) == p10);
}

proof fn lemma_chain_contains(x: ProjectType, c1: bool, c2: bool, c3: bool, c4: bool, c5: bool, c6: bool, c7: bool, c8: bool, c9: bool, c10: bool)
    ensures
        chain(c1, c2, c3, c4, c5, c6, c7, c8, c9, c10).contains(x) == condition_for(x, c1, c2, c3, c4, c5, c6, c7, c8, c9, c10),
{
    let p0 = Seq::<ProjectType>::empty();
    lemma_contains_when(p0, c1, ProjectType::Rust, x);
    let p1 = p0 + when(c1, ProjectType::Rust);
    assert(p1 =~= when(c1, ProjectType::Rust));
    lemma_contains_when(p1, c2, ProjectType::Cuda, x);
    let p2 = p1 + when(c2, ProjectType::Cuda);
    lemma_contains_when(p2, c3, ProjectType::Go, x);
    let p3 = p2 + when(c3, ProjectType::Go);
    lemma_contains_when(p3, c4, ProjectType::Python, x);
    let p4 = p3 + when(c4, ProjectType::Python);
    lemma_contains_when(p4, c5, ProjectType::TypeScript, x);
    let p5 = p4 + when(c5, ProjectType::TypeScript);
    lemma_contains_when(p5, c6, ProjectType::JavaScript, x);
    let p6 = p5 + when(c6, ProjectType::JavaScript);
    lemma_contains_when(p6, c7, ProjectType::Cpp, x);
    let p7 = p6 + when(c7, ProjectType::Cpp);
    lemma_contains_when(p7, c8, ProjectType::C, x);
    let p8 = p7 + when(c8, ProjectType::C);
    lemma_contains_when(p8, c9, ProjectType::CSharp, x);
    let p9 = p8 + when(c9, ProjectType::CSharp);
    lemma_contains_when(p9, c10, ProjectType::Java, x);
    let p10 = p9 + when(c10, ProjectType::Java);
    assert(chain(c1, c2, c3, c4, c5, c6, c7, c8, c9, c10) == p10);
}

/// The entries that make detection report a project type.
pub open spec fn marker(names: Seq<Seq<char>>, t: ProjectType) -> bool {
    let build = has_entry(names, "CMakeLists.txt"@) || has_entry(names, "Makefile"@) || has_entry(names, "configure"@)
        || has_entry(names, "meson.build"@);
    match t {
        ProjectType::Rust => has_entry(names, "Cargo.toml"@),
        ProjectType::Cuda => has_extension(names, "cu"@),
        ProjectType::Go => has_entry(names, "go.mod"@) || has_entry(names, "go.sum"@),
        ProjectType::Python => has_entry(names, "pyproject.toml"@) || has_entry(names, "setup.py"@) || has_entry(
            names,
            "requirements.txt"@,
        ) || has_entry(names, "Pipfile"@),
        ProjectType::TypeScript => has_entry(names, "package.json"@) && has_entry(names, "tsconfig.json"@),
        ProjectType::JavaScript => has_entry(names, "package.json"@) && !has_entry(names, "tsconfig.json"@),
        ProjectType::Cpp => build && (has_cpp(names) || !has_c(names)),
        ProjectType::C => build && !has_cpp(names) && has_c(names),
        ProjectType::CSharp => has_extension(names, "csproj"@) || has_extension(names, "sln"@),
        ProjectType::Java => has_entry(names, "pom.xml"@) || has_entry(names, "build.gradle"@) || has_entry(
            names,
            "build.gradle.kts"@,
        ),
    }
}

/// What detection reports (`detect_project_types` gives `project_types` of
/// the entries' names): each type at most once, in a fixed order (Rust,
/// CUDA, Go, Python, TypeScript, JavaScript, C++, C, C#, Java); never both
/// JavaScript and TypeScript, never both C and C++; TypeScript exactly
/// with `package.json` and `tsconfig.json`; Rust exactly with `Cargo.toml`;
/// every type exactly with its marker entries; nothing for an empty
/// directory.
pub proof fn law_project_types(names: Seq<Seq<char>>)
    ensures
        in_order(project_types(names)),
        forall|i: int, j: int|
            0 <= i < j < project_types(names).len() ==> project_types(names)[i] != project_types(names)[j],
        !(project_types(names).contains(ProjectType::JavaScript) && project_types(names).contains(
            ProjectType::TypeScript,
        )),
        !(project_types(names).contains(ProjectType::C) && project_types(names).contains(ProjectType::Cpp)),
        project_types(names).contains(ProjectType::TypeScript) == (has_entry(names, "package.json"@) && has_entry(
            names,
            "tsconfig.json"@,
        )),
        project_types(names).contains(ProjectType::Rust) == has_entry(names, "Cargo.toml"@),
        forall|t: ProjectType| #[trigger] project_types(names).contains(t) == marker(names, t),
        names.len() == 0 ==> project_types(names).len() == 0,
{
    let build = has_entry(names, "CMakeLists.txt"@) || has_entry(names, "Makefile"@) || has_entry(names, "configure"@)
        || has_entry(names, "meson.build"@);
    let c1 = has_entry(names, "Cargo.toml"@);
    let c2 = has_extension(names, "cu"@);
    let c3 = has_entry(names, "go.mod"@) || has_entry(names, "go.sum"@);
    let c4 = has_entry(names, "pyproject.toml"@) || has_entry(names, "setup.py"@) || has_entry(names, "requirements.txt"@)
        || has_entry(names, "Pipfile"@);
    let c5 = has_entry(names, "package.json"@) && has_entry(names, "tsconfig.json"@);
    let c6 = has_entry(names, "package.json"@) && !has_entry(names, "tsconfig.json"@);
    let c7 = build && (has_cpp(names) || !has_c(names));
    let c8 = build && !has_cpp(names) && has_c(names);
    let c9 = has_extension(names, "csproj"@) || has_extension(names, "sln"@);
    let c10 = has_entry(names, "pom.xml"@) || has_entry(names, "build.gradle"@) || has_entry(names, "build.gradle.kts"@);
    assert(project_types(names) == chain(c1, c2, c3, c4, c5, c6, c7, c8, c9, c10));
    lemma_chain(c1, c2, c3, c4, c5, c6, c7, c8, c9, c10);
    lemma_chain_contains(ProjectType::Rust, c1, c2, c3, c4, c5, c6, c7, c8, c9, c10);
    lemma_chain_contains(ProjectType::TypeScript, c1, c2, c3, c4, c5, c6, c7, c8, c9, c10);
    lemma_chain_contains(ProjectType::JavaScript, c1, c2, c3, c4, c5, c6, c7, c8, c9, c10);
    lemma_chain_contains(ProjectType::Cpp, c1, c2, c3, c4, c5, c6, c7, c8, c9, c10);
    lemma_chain_contains(ProjectType::C, c1, c2, c3, c4, c5, c6, c7, c8, c9, c10);
    assert forall|t: ProjectType| #[trigger] project_types(names).contains(t) == marker(names, t) by {
        lemma_chain_contains(t, c1, c2, c3, c4, c5, c6, c7, c8, c9, c10);
        match t {
            ProjectType::Rust => {},
            ProjectType::Cuda => {},
            ProjectType::Go => {},
            ProjectType::Python => {},
            ProjectType::TypeScript => {},
            ProjectType::JavaScript => {},
            ProjectType::Cpp => {},
            ProjectType::C => {},
            ProjectType::CSharp => {},
            ProjectType::Java => {},
        }
    }
    if names.len() == 0 {
        assert(!has_extension(names, "cu"@));
        assert(!has_extension(names, "csproj"@));
        assert(!has_extension(names, "sln"@));
        assert(!c1 && !c3 && !c4 && !c5 && !c6 && !c10 && !build);
    }
}

/// Every debugger recommended for a project type is in the registry and
/// has an installer; C# and Java projects get none.
pub proof fn law_recommended_registered(project: ProjectType)
    ensures
        forall|i: int|
            0 <= i < recommended(project).len() ==> installer_for(#[trigger] recommended(project)[i]) is Some
                && debugger_with_id(registry(), recommended(project)[i]) is Some,
        project == ProjectType::CSharp ==> recommended(project).len() == 0,
        project == ProjectType::Java ==> recommended(project).len() == 0,
{
    reveal_with_fuel(debugger_with_id, 8);
}

} // verus!
