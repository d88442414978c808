//! The installers of the supported debuggers: what each says about itself,
//! how it picks an installation method, and what it makes of what it finds
//! on the machine.
//!
//! Looking on the machine (the `PATH`, files, running programs, downloads)
//! happens outside; the installers here take what was found and decide.

pub mod gdb;
pub mod codelldb;
pub mod cuda_gdb;
pub mod debugpy;
pub mod delve;
pub mod gdb_common;
pub mod js_debug;
pub mod lldb;

use crate::common::Error;
use crate::setup::installer::InstallStatus;
use crate::setup::probe::VerifyResult;
use crate::setup::registry::{debugger_with_id, installer_for, registry, DebuggerInfo, DebuggerView, InstallerKind};
use crate::setup::installer::Installer;
use vstd::prelude::*;

verus! {

/// What checking an installation takes: starting the adapter found at
/// `path`, or nothing more, the result being known already.
#[derive(Debug)]
pub enum VerifyPlan {
    Probe { path: String },
    Done(VerifyResult),
}

/// How an installation is checked: an installed adapter is started; a
/// broken one fails with its reason; a missing one fails as not installed.
pub fn verify_plan(status: InstallStatus) -> (r: VerifyPlan)
    ensures
        match status {
            InstallStatus::Installed { path, .. } => r == (VerifyPlan::Probe { path }),
            InstallStatus::Broken { reason, .. } => r matches VerifyPlan::Done(v) && !v.success
                && v.capabilities is None && v.error == Some(reason),
            InstallStatus::NotInstalled => r matches VerifyPlan::Done(v) && !v.success
                && v.capabilities is None && (v.error matches Some(e) && e@ == "Not installed"@),
        },
{
    match status {
        InstallStatus::Installed { path, .. } => VerifyPlan::Probe { path },
        InstallStatus::Broken { reason, .. } => VerifyPlan::Done(VerifyResult::failed(reason)),
        InstallStatus::NotInstalled => VerifyPlan::Done(
            VerifyResult::failed(String::from_str("Not installed")),
        ),
    }
}

/// A program's file name: with `.exe` on Windows.
pub open spec fn program_name(base: Seq<char>, windows: bool) -> Seq<char> {
    if windows {
        base + ".exe"@
    } else {
        base
    }
}

/// The file name of a program, on Windows or elsewhere.
pub fn binary_name(base: &str, windows: bool) -> (r: String)
    ensures
        r@ == program_name(base@, windows),
{
    let mut m = crate::text::chars_of(base);
    if windows {
        crate::text::append_str(&mut m, ".exe");
    }
    crate::text::string_from(m.as_slice())
}

/// `s` without its leading `c` characters (`trim_start_matches`).
pub open spec fn strip_leading(s: Seq<char>, c: char) -> Seq<char>
    decreases s.len(),
{
    if s.len() > 0 && s[0] == c {
        strip_leading(s.drop_first(), c)
    } else {
        s
    }
}

/// A text without its leading `c` characters.
pub fn trim_leading(s: &str, c: char) -> (r: String)
    ensures
        r@ == strip_leading(s@, c),
{
    let cs = crate::text::chars_of(s);
    let mut i: usize = 0;
    proof {
        assert(cs@.skip(0) =~= cs@);
    }
    while i < cs.len() && cs[i] == c
        invariant
            i <= cs@.len(),
            cs@ == s@,
            strip_leading(cs@.skip(i as int), c) == strip_leading(s@, c),
        decreases cs@.len() - i,
    {
        proof {
            assert(cs@.skip(i as int).drop_first() =~= cs@.skip(i + 1));
        }
        i = i + 1;
    }
    let rest = crate::text::slice_range(cs.as_slice(), i, cs.len());
    proof {
        assert(rest@ =~= cs@.skip(i as int));
    }
    crate::text::string_from(rest.as_slice())
}

/// The error for a method an installer does not use.
pub fn unexpected_method() -> (r: Error)
    ensures
        r matches Error::Internal(m) && m@ == "Unexpected installation method"@,
{
    Error::Internal(String::from_str("Unexpected installation method"))
}

/// The error for a debugger that cannot be installed, with the reason.
pub fn cannot_install(name: &str, reason: &str) -> (r: Error)
    ensures
        r matches Error::Internal(m) && m@ == "Cannot install "@ + name@ + ": "@ + reason@,
{
    let mut m = crate::text::chars_of("Cannot install ");
    crate::text::append_str(&mut m, name);
    crate::text::append_str(&mut m, ": ");
    crate::text::append_str(&mut m, reason);
    Error::Internal(crate::text::string_from(m.as_slice()))
}

/// The strings of `v`.
pub open spec fn texts(v: Seq<String>) -> Seq<Seq<char>> {
    Seq::new(v.len(), |i: int| v[i]@)
}

/// A list holding one string.
pub fn one_arg(a: &str) -> (r: Vec<String>)
    ensures
        texts(r@) == seq![a@],
{
    let mut r: Vec<String> = Vec::new();
    r.push(String::from_str(a));
    proof {
        assert(texts(r@) =~= seq![a@]);
    }
    r
}

/// A list holding two strings.
pub fn two_args(a: &str, b: &str) -> (r: Vec<String>)
    ensures
        texts(r@) == seq![a@, b@],
{
    let mut r: Vec<String> = Vec::new();
    r.push(String::from_str(a));
    r.push(String::from_str(b));
    proof {
        assert(texts(r@) =~= seq![a@, b@]);
    }
    r
}

/// What an installer says about the debugger it installs.
pub open spec fn installer_view(k: InstallerKind) -> DebuggerView {
    match k {
        InstallerKind::Gdb => gdb::gdb_view(),
        InstallerKind::CudaGdb => cuda_gdb::cuda_gdb_view(),
        InstallerKind::Lldb => lldb::lldb_view(),
        InstallerKind::CodeLldb => codelldb::codelldb_view(),
        InstallerKind::Debugpy => debugpy::debugpy_view(),
        InstallerKind::Delve => delve::delve_view(),
        InstallerKind::JsDebug => js_debug::js_debug_view(),
    }
}

/// What the installer of a kind says about its debugger.
pub fn installer_info(k: InstallerKind) -> (r: DebuggerInfo)
    ensures
        r@ == installer_view(k),
{
    match k {
        InstallerKind::Gdb => gdb::GdbInstaller.info(),
        InstallerKind::CudaGdb => cuda_gdb::CudaGdbInstaller.info(),
        InstallerKind::Lldb => lldb::LldbInstaller.info(),
        InstallerKind::CodeLldb => codelldb::CodeLldbInstaller.info(),
        InstallerKind::Debugpy => debugpy::DebugpyInstaller.info(),
        InstallerKind::Delve => delve::DelveInstaller.info(),
        InstallerKind::JsDebug => js_debug::JsDebugInstaller.info(),
    }
}

/// The installer found for an id installs the debugger with that id, for
/// the languages the registry gives it.
pub proof fn law_installer_matches_registry(id: Seq<char>)
    ensures
        installer_for(id) matches Some(k) ==> installer_view(k).id == id && (debugger_with_id(registry(), id) matches Some(
            d,
        ) && installer_view(k).languages == d.languages),
{
    reveal_with_fuel(debugger_with_id, 8);
}

} // verus!
