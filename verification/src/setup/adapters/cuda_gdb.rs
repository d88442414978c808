//! CUDA-GDB: either its own DAP interpreter (`-i=dap`, in builds based on
//! GDB 14.1 or later that carry the DAP bindings), or behind the
//! `cdt-gdb-adapter` bridge, which speaks DAP and drives CUDA-GDB in MI
//! mode. Linux only.

use crate::common::Error;
use crate::setup::adapters::gdb_common::{is_gdb_version_sufficient, version_sufficient};
use crate::setup::adapters::{cannot_install, one_arg, texts, unexpected_method};
use crate::setup::installer::{InstallMethod, InstallResult, InstallStatus};
use crate::setup::registry::{DebuggerInfo, DebuggerView, Platform};
use crate::text::{contains_seq, pieces};
use vstd::prelude::*;

verus! {

/// The installer of CUDA-GDB.
pub struct CudaGdbInstaller;

/// What the CUDA-GDB installer says of it.
pub open spec fn cuda_gdb_view() -> DebuggerView {
    DebuggerView {
        id: "cuda-gdb"@,
        name: "CUDA-GDB"@,
        languages: seq!["cuda"@, "c"@, "cpp"@],
        platforms: seq![Platform::Linux],
        description: "NVIDIA CUDA debugger for GPU code"@,
        primary: true,
    }
}

/// Whether CUDA-GDB has its own DAP interpreter: its version is 14.1 or
/// later, and running it with `-i=dap` (whose error output is `stderr`,
/// `None` when it could not run) did not complain of an unknown
/// interpreter.
pub open spec fn native_dap(version: Option<Seq<char>>, stderr: Option<Seq<char>>) -> bool {
    &&& version matches Some(v) && version_sufficient(v)
    &&& stderr matches Some(e) && !contains_seq(e, "unrecognized"@) && !contains_seq(e, "Interpreter"@)
}

/// The argument that points the bridge at CUDA-GDB.
pub open spec fn bridge_arg(cuda_gdb: Seq<char>) -> Seq<char> {
    "--config={\"gdb\":\""@ + cuda_gdb + "\"}"@
}

/// The number a piece of a version gives, 0 when it is no number.
pub open spec fn number_or_zero(s: Seq<char>) -> u32 {
    match crate::number::parse_unsigned(s, u32::MAX as nat) {
        Some(n) => n as u32,
        None => 0,
    }
}

/// The major and minor numbers of a CUDA version such as `13.1`.
pub open spec fn version_key(v: Seq<char>) -> (u32, u32) {
    let ps = pieces(v, '.');
    (number_or_zero(ps[0]), if ps.len() >= 2 {
        number_or_zero(ps[1])
    } else {
        0
    })
}

/// `a` is no later than `b`.
pub open spec fn key_le(a: (u32, u32), b: (u32, u32)) -> bool {
    a.0 < b.0 || (a.0 == b.0 && a.1 <= b.1)
}

/// `i` is the first of the latest versions.
pub open spec fn newest_index(vs: Seq<Seq<char>>, i: int) -> bool {
    &&& 0 <= i < vs.len()
    &&& forall|j: int| 0 <= j < vs.len() ==> key_le(#[trigger] version_key(vs[j]), version_key(vs[i]))
    &&& forall|j: int| 0 <= j < i ==> #[trigger] version_key(vs[j]) != version_key(vs[i])
}

fn number_value(s: &[char]) -> (r: u32)
    ensures
        r == number_or_zero(s@),
{
    match crate::number::parse_u32(s) {
        Some(n) => n,
        None => 0,
    }
}

fn key_of(v: &str) -> (r: (u32, u32))
    ensures
        r == version_key(v@),
{
    let cs = crate::text::chars_of(v);
    let ps = crate::text::split_on(cs.as_slice(), '.');
    proof {
        assert(crate::text::views(ps@).len() == ps@.len());
        assert(ps@.len() >= 1);
        assert(crate::text::views(ps@)[0] == ps@[0]@);
    }
    let major = number_value(ps[0].as_slice());
    let minor = if ps.len() >= 2 {
        proof {
            assert(crate::text::views(ps@)[1] == ps@[1]@);
        }
        number_value(ps[1].as_slice())
    } else {
        0
    };
    (major, minor)
}

fn joined(a: &str, b: &str, c: &str) -> (r: String)
    ensures
        r@ == a@ + b@ + c@,
{
    let mut m = crate::text::chars_of(a);
    crate::text::append_str(&mut m, b);
    crate::text::append_str(&mut m, c);
    crate::text::string_from(m.as_slice())
}

impl crate::setup::installer::Installer for CudaGdbInstaller {
    /// The debugger this installer installs.
    fn info(&self) -> (r: DebuggerInfo)
        ensures
            r@ == cuda_gdb_view(),
    {
        let d = crate::setup::registry::entry(
            "cuda-gdb",
            "CUDA-GDB",
            vec!["cuda", "c", "cpp"],
            vec![Platform::Linux],
            "NVIDIA CUDA debugger for GPU code",
            true,
        );
        proof {
            assert(d@.languages =~= cuda_gdb_view().languages);
            assert(d@.platforms =~= cuda_gdb_view().platforms);
        }
        d
    }
}

impl CudaGdbInstaller {
    /// Whether CUDA-GDB has its own DAP interpreter.
    pub fn has_native_dap_support(&self, version: &Option<String>, stderr: &Option<String>) -> (r: bool)
        ensures
            r == native_dap(
                match version {
                    Some(v) => Some(v@),
                    None => None,
                },
                match stderr {
                    Some(e) => Some(e@),
                    None => None,
                },
            ),
    {
        match version {
            Some(v) => {
                if !is_gdb_version_sufficient(v.as_str()) {
                    return false;
                }
            },
            None => return false,
        }
        match stderr {
            Some(e) => {
                let ec = crate::text::chars_of(e.as_str());
                let u = crate::text::chars_of("unrecognized");
                let i = crate::text::chars_of("Interpreter");
                !crate::text::contains(ec.as_slice(), u.as_slice()) && !crate::text::contains(
                    ec.as_slice(),
                    i.as_slice(),
                )
            },
            None => false,
        }
    }

    /// The state of CUDA-GDB: installed when it speaks DAP itself (at its
    /// path) or when the bridge is there (at the bridge's path); broken
    /// when neither; not installed off Linux or when it is not found.
    pub fn status(
        &self,
        on_linux: bool,
        cuda_gdb: Option<String>,
        version: Option<String>,
        native: bool,
        cdt: Option<String>,
    ) -> (r: InstallStatus)
        ensures
            !on_linux ==> r == InstallStatus::NotInstalled,
            on_linux ==> match cuda_gdb {
                None => r == InstallStatus::NotInstalled,
                Some(p) => if native {
                    r == (InstallStatus::Installed { path: p, version })
                } else {
                    match cdt {
                        Some(c) => r == (InstallStatus::Installed { path: c, version }),
                        None => r matches InstallStatus::Broken { path, reason } && path == p && reason@
                            == "cuda-gdb found but lacks native DAP support. Install cdt-gdb-adapter: npm install -g cdt-gdb-adapter"@,
                    }
                },
            },
    {
        if !on_linux {
            return InstallStatus::NotInstalled;
        }
        match cuda_gdb {
            None => InstallStatus::NotInstalled,
            Some(p) => {
                if native {
                    InstallStatus::Installed { path: p, version }
                } else {
                    match cdt {
                        Some(c) => InstallStatus::Installed { path: c, version },
                        None => InstallStatus::Broken {
                            path: p,
                            reason: String::from_str(
                                "cuda-gdb found but lacks native DAP support. Install cdt-gdb-adapter: npm install -g cdt-gdb-adapter",
                            ),
                        },
                    }
                }
            },
        }
    }

    /// How to get a DAP-speaking CUDA-GDB: the one found when it speaks DAP
    /// itself, else the bridge when it is there; nothing is installed by
    /// this tool.
    pub fn best_method(&self, on_linux: bool, cuda_gdb: Option<String>, native: bool, cdt: Option<String>) -> (r:
        InstallMethod)
        ensures
            !on_linux ==> (r matches InstallMethod::NotSupported { reason } && reason@
                == "CUDA-GDB GPU debugging is only supported on Linux"@),
            on_linux ==> match cuda_gdb {
                None => r matches InstallMethod::NotSupported { reason } && reason@
                    == "CUDA-GDB not found. Install NVIDIA CUDA Toolkit from https://developer.nvidia.com/cuda-downloads"@,
                Some(p) => if native {
                    r == (InstallMethod::AlreadyInstalled { path: p })
                } else {
                    match cdt {
                        Some(c) => r == (InstallMethod::AlreadyInstalled { path: c }),
                        None => r matches InstallMethod::NotSupported { reason } && reason@
                            == "cuda-gdb lacks native DAP support. Install cdt-gdb-adapter: npm install -g cdt-gdb-adapter"@,
                    }
                },
            },
    {
        if !on_linux {
            return InstallMethod::NotSupported {
                reason: String::from_str("CUDA-GDB GPU debugging is only supported on Linux"),
            };
        }
        match cuda_gdb {
            None => InstallMethod::NotSupported {
                reason: String::from_str(
                    "CUDA-GDB not found. Install NVIDIA CUDA Toolkit from https://developer.nvidia.com/cuda-downloads",
                ),
            },
            Some(p) => {
                if native {
                    InstallMethod::AlreadyInstalled { path: p }
                } else {
                    match cdt {
                        Some(c) => InstallMethod::AlreadyInstalled { path: c },
                        None => InstallMethod::NotSupported {
                            reason: String::from_str(
                                "cuda-gdb lacks native DAP support. Install cdt-gdb-adapter: npm install -g cdt-gdb-adapter",
                            ),
                        },
                    }
                }
            },
        }
    }

    /// The argument that points the bridge at CUDA-GDB.
    pub fn bridge_config(&self, cuda_gdb: &str) -> (r: String)
        ensures
            r@ == bridge_arg(cuda_gdb@),
    {
        joined("--config={\"gdb\":\"", cuda_gdb, "\"}")
    }

    /// The arguments an adapter is started with: `-i=dap` for CUDA-GDB's
    /// own interpreter, the bridge's configuration otherwise.
    pub fn adapter_args(&self, native: bool, cuda_gdb: &str) -> (r: Vec<String>)
        ensures
            native ==> texts(r@) == seq!["-i=dap"@],
            !native ==> texts(r@) == seq![bridge_arg(cuda_gdb@)],
    {
        if native {
            one_arg("-i=dap")
        } else {
            let mut v: Vec<String> = Vec::new();
            v.push(self.bridge_config(cuda_gdb));
            proof {
                assert(texts(v@) =~= seq![bridge_arg(cuda_gdb@)]);
            }
            v
        }
    }

    /// What installing comes to for the chosen method: CUDA-GDB with its
    /// own interpreter, or the bridge pointed at it.
    pub fn install(&self, method: InstallMethod, cuda_gdb: Option<String>, version: Option<String>, native: bool) -> (r:
        Result<InstallResult, Error>)
        ensures
            match method {
                InstallMethod::AlreadyInstalled { path } => match cuda_gdb {
                    None => r matches Err(Error::Internal(m)) && m@ == "CUDA-GDB not found"@,
                    Some(c) => r matches Ok(res) && res.version == version && if native {
                        res.path == c && texts(res.args@) == seq!["-i=dap"@]
                    } else {
                        res.path == path && texts(res.args@) == seq![bridge_arg(c@)]
                    },
                },
                InstallMethod::NotSupported { reason } => r matches Err(Error::Internal(m)) && m@
                    == "Cannot install "@ + "CUDA-GDB"@ + ": "@ + reason@,
                _ => r matches Err(Error::Internal(m)) && m@ == "Unexpected installation method"@,
            },
    {
        match method {
            InstallMethod::AlreadyInstalled { path } => match cuda_gdb {
                None => Err(Error::Internal(String::from_str("CUDA-GDB not found"))),
                Some(c) => {
                    let args = self.adapter_args(native, c.as_str());
                    if native {
                        Ok(InstallResult { path: c, version, args })
                    } else {
                        Ok(InstallResult { path, version, args })
                    }
                },
            },
            InstallMethod::NotSupported { reason } => Err(cannot_install("CUDA-GDB", reason.as_str())),
            _ => Err(unexpected_method()),
        }
    }

    /// Of versioned CUDA installations (the versions, such as `13.1`, of
    /// the `cuda-<version>` directories that hold a `cuda-gdb`), the one to
    /// use: the first of the latest.
    pub fn newest_install(&self, versions: &[String]) -> (r: Option<usize>)
        ensures
            match r {
                Some(i) => newest_index(versions@.map_values(|s: String| s@), i as int),
                None => versions@.len() == 0,
            },
    {
        let ghost vs = versions@.map_values(|s: String| s@);
        if versions.len() == 0 {
            return None;
        }
        let mut best: usize = 0;
        let mut best_key = key_of(versions[0].as_str());
        let mut k: usize = 1;
        while k < versions.len()
            invariant
                1 <= k <= versions@.len(),
                vs == versions@.map_values(|s: String| s@),
                best < k,
                best_key == version_key(vs[best as int]),
                forall|j: int| 0 <= j < k ==> key_le(#[trigger] version_key(vs[j]), best_key),
                forall|j: int| 0 <= j < best ==> #[trigger] version_key(vs[j]) != best_key,
            decreases versions@.len() - k,
        {
            let key = key_of(versions[k].as_str());
            if key.0 > best_key.0 || (key.0 == best_key.0 && key.1 > best_key.1) {
                best = k;
                best_key = key;
            }
            k = k + 1;
        }
        Some(best)
    }

    /// Where CUDA-GDB is: the newest versioned installation; else NVIDIA's
    /// standard place; else Arch Linux's; else under `CUDA_HOME` (given when
    /// the program exists there); else on the `PATH`.
    pub fn locate(
        &self,
        versioned: Option<String>,
        default_exists: bool,
        arch_exists: bool,
        cuda_home: Option<String>,
        on_path: Option<String>,
    ) -> (r: Option<String>)
        ensures
            match versioned {
                Some(v) => r == Some(v),
                None => if default_exists {
                    r matches Some(p) && p@ == "/usr/local/cuda/bin/cuda-gdb"@
                } else if arch_exists {
                    r matches Some(p) && p@ == "/opt/cuda/bin/cuda-gdb"@
                } else {
                    match cuda_home {
                        Some(h) => r == Some(h),
                        None => r == on_path,
                    }
                },
            },
    {
        match versioned {
            Some(v) => Some(v),
            None => {
                if default_exists {
                    Some(String::from_str("/usr/local/cuda/bin/cuda-gdb"))
                } else if arch_exists {
                    Some(String::from_str("/opt/cuda/bin/cuda-gdb"))
                } else {
                    match cuda_home {
                        Some(h) => Some(h),
                        None => on_path,
                    }
                }
            },
        }
    }

    /// The places to look for the bridge's program, in order: each nvm
    /// Node version's `bin`, npm's global `bin` and the `node_modules/.bin`
    /// under the home directory, then `/usr/local/bin`.
    pub fn bridge_candidates(&self, home: Option<String>, nvm_versions: &[String]) -> (r: Vec<String>)
        ensures
            texts(r@) == match home {
                Some(h) => Seq::new(
                    nvm_versions@.len(),
                    |i: int| crate::common::paths::path_join(nvm_versions@[i]@, "bin/cdtDebugAdapter"@),
                ) + seq![
                    crate::common::paths::path_join(h@, ".npm-global/bin/cdtDebugAdapter"@),
                    crate::common::paths::path_join(h@, "node_modules/.bin/cdtDebugAdapter"@),
                ],
                None => Seq::<Seq<char>>::empty(),
            } + seq!["/usr/local/bin/cdtDebugAdapter"@],
    {
        let mut r: Vec<String> = Vec::new();
        match &home {
            Some(h) => {
                let mut i: usize = 0;
                while i < nvm_versions.len()
                    invariant
                        i <= nvm_versions@.len(),
                        texts(r@) == Seq::new(
                            i as nat,
                            |k: int| crate::common::paths::path_join(nvm_versions@[k]@, "bin/cdtDebugAdapter"@),
                        ),
                    decreases nvm_versions@.len() - i,
                {
                    let ghost before = texts(r@);
                    let p = crate::common::paths::join_path(nvm_versions[i].as_str(), "bin/cdtDebugAdapter");
                    r.push(p);
                    proof {
                        assert(texts(r@) =~= before.push(p@));
                        assert(texts(r@) =~= Seq::new(
                            (i + 1) as nat,
                            |k: int| crate::common::paths::path_join(nvm_versions@[k]@, "bin/cdtDebugAdapter"@),
                        ));
                    }
                    i = i + 1;
                }
                let ghost before = texts(r@);
                r.push(crate::common::paths::join_path(h.as_str(), ".npm-global/bin/cdtDebugAdapter"));
                r.push(crate::common::paths::join_path(h.as_str(), "node_modules/.bin/cdtDebugAdapter"));
                proof {
                    assert(texts(r@) =~= before + seq![
                        crate::common::paths::path_join(h@, ".npm-global/bin/cdtDebugAdapter"@),
                        crate::common::paths::path_join(h@, "node_modules/.bin/cdtDebugAdapter"@),
                    ]);
                }
            },
            None => {
                proof {
                    assert(texts(r@) =~= Seq::<Seq<char>>::empty());
                }
            },
        }
        let ghost before = texts(r@);
        r.push(String::from_str("/usr/local/bin/cdtDebugAdapter"));
        proof {
            assert(texts(r@) =~= before + seq!["/usr/local/bin/cdtDebugAdapter"@]);
        }
        r
    }
}

} // verus!
