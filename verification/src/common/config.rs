//! The configuration: adapters, defaults, timeouts, daemon and output
//! settings, with the values used when the file gives none.

use vstd::prelude::*;

verus! {

/// The configuration.
#[derive(Debug)]
pub struct Config {
    /// Configured adapters by name; a name occurs at most once.
    pub adapters: Vec<(String, AdapterConfig)>,
    /// Default settings.
    pub defaults: Defaults,
    /// Timeouts.
    pub timeouts: Timeouts,
    /// Daemon settings.
    pub daemon: DaemonConfig,
    /// Output buffering.
    pub output: OutputConfig,
}

/// How launch arguments are shaped for an adapter.
#[derive(Debug, Clone, Copy, PartialEq, Eq, Structural)]
pub enum AdapterType {
    /// lldb-dap.
    LldbDap,
    /// debugpy.
    Debugpy,
    /// CodeLLDB.
    Codelldb,
    /// Any other DAP adapter.
    Generic,
}

impl Default for AdapterType {
    fn default() -> (r: Self)
        ensures
            r == AdapterType::LldbDap,
    {
        AdapterType::LldbDap
    }
}

/// How to run a debug adapter.
#[derive(Debug)]
pub struct AdapterConfig {
    /// The adapter program.
    pub path: String,
    /// Extra arguments.
    pub args: Vec<String>,
    /// Its kind.
    pub adapter_type: AdapterType,
}

/// An adapter configuration as plain values.
pub open spec fn adapter_view(c: AdapterConfig) -> (Seq<char>, Seq<Seq<char>>, AdapterType) {
    (c.path@, c.args@.map_values(|a: String| a@), c.adapter_type)
}

impl AdapterConfig {
    /// A copy of the configuration.
    pub fn copy(&self) -> (r: AdapterConfig)
        ensures
            adapter_view(r) == adapter_view(*self),
    {
        let mut args: Vec<String> = Vec::new();
        let mut k: usize = 0;
        while k < self.args.len()
            invariant
                k <= self.args@.len(),
                args@.map_values(|a: String| a@) == self.args@.take(k as int).map_values(|a: String| a@),
            decreases self.args@.len() - k,
        {
            let a = self.args[k].clone();
            proof {
                assert(args@.push(a).map_values(|a: String| a@) =~= args@.map_values(|a: String| a@).push(a@));
                assert(self.args@.take(k + 1).map_values(|a: String| a@) =~= self.args@.take(k as int).map_values(
                    |a: String| a@,
                ).push(self.args@[k as int]@));
            }
            args.push(a);
            k = k + 1;
        }
        proof {
            assert(self.args@.take(self.args@.len() as int) =~= self.args@);
        }
        AdapterConfig { path: self.path.clone(), args, adapter_type: self.adapter_type }
    }
}

/// Default settings.
#[derive(Debug)]
pub struct Defaults {
    /// The adapter used when none is named.
    pub adapter: String,
}

impl Default for Defaults {
    fn default() -> (r: Self)
        ensures
            r.adapter@ == "lldb-dap"@,
    {
        Defaults { adapter: default_adapter() }
    }
}

/// The adapter used when none is named.
pub fn default_adapter() -> (r: String)
    ensures
        r@ == "lldb-dap"@,
{
    String::from_str("lldb-dap")
}

/// Timeouts, in seconds.
#[derive(Debug)]
pub struct Timeouts {
    /// For the DAP initialize request.
    pub dap_initialize_secs: u64,
    /// For other DAP requests.
    pub dap_request_secs: u64,
    /// For `await` when it names none.
    pub await_default_secs: u64,
}

impl Default for Timeouts {
    fn default() -> (r: Self)
        ensures
            r.dap_initialize_secs == 10,
            r.dap_request_secs == 30,
            r.await_default_secs == 300,
    {
        Timeouts {
            dap_initialize_secs: default_dap_initialize(),
            dap_request_secs: default_dap_request(),
            await_default_secs: default_await(),
        }
    }
}

/// The initialize timeout when the file gives none.
pub fn default_dap_initialize() -> (r: u64)
    ensures
        r == 10,
{
    10
}

/// The request timeout when the file gives none.
pub fn default_dap_request() -> (r: u64)
    ensures
        r == 30,
{
    30
}

/// The await timeout when the file gives none.
pub fn default_await() -> (r: u64)
    ensures
        r == 300,
{
    300
}

/// Daemon settings.
#[derive(Debug)]
pub struct DaemonConfig {
    /// Minutes without a session after which the daemon exits.
    pub idle_timeout_minutes: u64,
}

impl Default for DaemonConfig {
    fn default() -> (r: Self)
        ensures
            r.idle_timeout_minutes == 30,
    {
        DaemonConfig { idle_timeout_minutes: default_idle_timeout() }
    }
}

/// The idle timeout when the file gives none.
pub fn default_idle_timeout() -> (r: u64)
    ensures
        r == 30,
{
    30
}

/// Output buffering.
#[derive(Debug)]
pub struct OutputConfig {
    /// The most output events kept.
    pub max_events: usize,
    /// The most output kept, in megabytes.
    pub max_bytes_mb: usize,
}

impl Default for OutputConfig {
    fn default() -> (r: Self)
        ensures
            r.max_events == 10_000,
            r.max_bytes_mb == 10,
    {
        OutputConfig { max_events: default_max_events(), max_bytes_mb: default_max_bytes() }
    }
}

/// The event limit when the file gives none.
pub fn default_max_events() -> (r: usize)
    ensures
        r == 10_000,
{
    10_000
}

/// The size limit, in megabytes, when the file gives none.
pub fn default_max_bytes() -> (r: usize)
    ensures
        r == 10,
{
    10
}

impl Default for Config {
    fn default() -> (r: Self)
        ensures
            r.adapters@.len() == 0,
            r.defaults.adapter@ == "lldb-dap"@,
            r.timeouts.dap_initialize_secs == 10,
            r.timeouts.dap_request_secs == 30,
            r.timeouts.await_default_secs == 300,
            r.daemon.idle_timeout_minutes == 30,
            r.output.max_events == 10_000,
            r.output.max_bytes_mb == 10,
    {
        Config {
            adapters: Vec::new(),
            defaults: Defaults::default(),
            timeouts: Timeouts::default(),
            daemon: DaemonConfig::default(),
            output: OutputConfig::default(),
        }
    }
}

/// The configured adapter with the given name.
pub open spec fn configured(entries: Seq<(String, AdapterConfig)>, name: Seq<char>) -> Option<AdapterConfig>
    decreases entries.len(),
{
    if entries.len() == 0 {
        None
    } else if entries[0].0@ == name {
        Some(entries[0].1)
    } else {
        configured(entries.drop_first(), name)
    }
}

/// The kind of adapter a program name suggests.
pub open spec fn type_for_name(name: Seq<char>) -> AdapterType {
    if name == "lldb-dap"@ || name == "lldb-vscode"@ {
        AdapterType::LldbDap
    } else if name == "debugpy"@ || name == "debugpy-adapter"@ {
        AdapterType::Debugpy
    } else if name == "codelldb"@ {
        AdapterType::Codelldb
    } else {
        AdapterType::Generic
    }
}

/// The kind of adapter a program name suggests.
pub fn adapter_type_for(name: &str) -> (r: AdapterType)
    ensures
        r == type_for_name(name@),
{
    let n = crate::text::chars_of(name);
    let n = n.as_slice();
    if crate::text::eq_str(n, "lldb-dap") || crate::text::eq_str(n, "lldb-vscode") {
        AdapterType::LldbDap
    } else if crate::text::eq_str(n, "debugpy") || crate::text::eq_str(n, "debugpy-adapter") {
        AdapterType::Debugpy
    } else if crate::text::eq_str(n, "codelldb") {
        AdapterType::Codelldb
    } else {
        AdapterType::Generic
    }
}

/// `p`'s last component (after its last separator) starts with `name`,
/// letters compared without their ASCII case.
pub open spec fn last_component_starts_with(p: Seq<char>, name: Seq<char>) -> bool {
    exists|i: int|
        0 <= i && i + name.len() <= p.len() && (i == 0 || crate::common::paths::is_separator(#[trigger] p[i - 1]))
            && (forall|j: int| i <= j < p.len() ==> !crate::common::paths::is_separator(p[j])) && (forall|k: int|
            0 <= k < name.len() ==> crate::text::ascii_lower(#[trigger] p[i + k]) == crate::text::ascii_lower(name[k]))
}

/// A program name with no path in it: not empty, with no separator.
pub open spec fn bare_name(name: Seq<char>) -> bool {
    name.len() > 0 && forall|i: int| 0 <= i < name.len() ==> !crate::common::paths::is_separator(#[trigger] name[i])
}

/// The path of a program on the `PATH`, by `which::which`, as text. Whether
/// and where it is found depends on the environment and the disk. For a
/// bare name, the crate joins each `PATH` directory with the name, on
/// Windows adds an extension and corrects the letter case (ignoring ASCII
/// case), so the path found ends in a component that starts with the name.
#[verifier::external_body]
fn find_on_path(name: &str) -> (r: Option<String>)
    ensures
        bare_name(name@) ==> (r matches Some(p) ==> last_component_starts_with(p@, name@)),
{
    match which::which(name) {
        Ok(p) => Some(p.to_string_lossy().into_owned()),
        Err(_) => None,
    }
}

/// The configuration of an adapter found on the `PATH`.
pub fn adapter_on_path(name: &str, path: String) -> (r: AdapterConfig)
    ensures
        r.path == path,
        r.args@.len() == 0,
        r.adapter_type == type_for_name(name@),
{
    AdapterConfig { path, args: Vec::new(), adapter_type: adapter_type_for(name) }
}

impl Config {
    /// The adapter with the given name: its configured entry, or else the
    /// program of that name on the `PATH`, with no arguments and the kind
    /// its name suggests.
    pub fn get_adapter(&self, name: &str) -> (r: Option<AdapterConfig>)
        ensures
            match configured(self.adapters@, name@) {
                Some(c) => (r matches Some(x) && adapter_view(x) == adapter_view(c)),
                None => r matches Some(x) ==> x.args@.len() == 0 && x.adapter_type == type_for_name(name@) && (
                bare_name(name@) ==> last_component_starts_with(x.path@, name@)),
            },
    {
        let want = crate::text::chars_of(name);
        let mut k: usize = 0;
        proof {
            assert(self.adapters@.skip(0) =~= self.adapters@);
        }
        while k < self.adapters.len()
            invariant
                k <= self.adapters@.len(),
                want@ == name@,
                configured(self.adapters@, name@) == configured(self.adapters@.skip(k as int), name@),
            decreases self.adapters@.len() - k,
        {
            let key = crate::text::chars_of(self.adapters[k].0.as_str());
            proof {
                assert(self.adapters@.skip(k as int)[0] == self.adapters@[k as int]);
                assert(self.adapters@.skip(k as int).drop_first() =~= self.adapters@.skip(k + 1));
            }
            if crate::text::seq_eq(key.as_slice(), want.as_slice()) {
                return Some(self.adapters[k].1.copy());
            }
            k = k + 1;
        }
        match find_on_path(name) {
            Some(path) => Some(adapter_on_path(name, path)),
            None => None,
        }
    }
}

} // verus!
