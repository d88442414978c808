//! Where the daemon's socket, the configuration and the logs live.

use vstd::prelude::*;

verus! {

/// The directory under which the socket lives, and the name of the
/// project's directories.
pub const SOCKET_NAME: &'static str = "debugger-cli";

/// `base` joined with a relative path `part`, as `Path::join` does: with a
/// `/` between them unless `base` is empty or already ends with one.
pub open spec fn path_join(base: Seq<char>, part: Seq<char>) -> Seq<char> {
    if base.len() == 0 {
        part
    } else if base.last() == '/' {
        base + part
    } else {
        base + seq!['/'] + part
    }
}

/// Joins a relative path to a base path.
pub fn join_path(base: &str, part: &str) -> (r: String)
    ensures
        r@ == path_join(base@, part@),
{
    let mut b = crate::text::chars_of(base);
    if b.len() > 0 && b[b.len() - 1] != '/' {
        b.push('/');
    }
    crate::text::append_str(&mut b, part);
    proof {
        if base@.len() > 0 && base@.last() != '/' {
            assert(b@ =~= base@ + seq!['/'] + part@);
        }
    }
    crate::text::string_from(b.as_slice())
}

/// The socket's path: under the runtime directory when there is one, else
/// under `/tmp/debugger-cli-<uid>`.
pub open spec fn socket_path_text(runtime_dir: Option<Seq<char>>, uid: u32) -> Seq<char> {
    match runtime_dir {
        Some(d) => path_join(path_join(d, "debugger-cli"@), "daemon.sock"@),
        None => path_join("/tmp/debugger-cli-"@ + crate::number::decimal_of(uid as nat), "daemon.sock"@),
    }
}

/// The socket's path, given `$XDG_RUNTIME_DIR` (when set) and the user id.
pub fn socket_path(runtime_dir: Option<&str>, uid: u32) -> (r: String)
    ensures
        r@ == socket_path_text(
            match runtime_dir {
                Some(d) => Some(d@),
                None => None,
            },
            uid,
        ),
{
    match runtime_dir {
        Some(d) => {
            let dir = join_path(d, SOCKET_NAME);
            join_path(dir.as_str(), "daemon.sock")
        },
        None => {
            let mut m = crate::text::chars_of("/tmp/debugger-cli-");
            let n = crate::number::decimal_chars(uid as u64);
            crate::text::append(&mut m, n.as_slice());
            let dir = crate::text::string_from(m.as_slice());
            join_path(dir.as_str(), "daemon.sock")
        },
    }
}

/// The name the local socket is opened by: its path.
pub fn socket_name(runtime_dir: Option<&str>, uid: u32) -> (r: String)
    ensures
        r@ == socket_path_text(
            match runtime_dir {
                Some(d) => Some(d@),
                None => None,
            },
            uid,
        ),
{
    socket_path(runtime_dir, uid)
}

/// A path separator, on Unix or on Windows.
pub open spec fn is_separator(c: char) -> bool {
    c == '/' || c == '\\'
}

/// `c` is one of the components of path `p`: it stands in `p` between
/// separators or the ends.
pub open spec fn path_has_component(p: Seq<char>, c: Seq<char>) -> bool {
    exists|i: int|
        0 <= i && i + c.len() <= p.len() && #[trigger] p.subrange(i, i + c.len()) == c && (i == 0 || is_separator(
            p[i - 1],
        )) && (i + c.len() == p.len() || is_separator(p[i + c.len()]))
}

/// A name that every platform keeps as it is in a project directory: not
/// empty, of lowercase ASCII letters, digits and `-`.
pub open spec fn plain_name(s: Seq<char>) -> bool {
    s.len() > 0 && forall|i: int|
        0 <= i < s.len() ==> ('a' <= #[trigger] s[i] <= 'z' || '0' <= s[i] <= '9' || s[i] == '-')
}

/// The application name that the configuration and data directories are
/// named after.
pub fn application_name() -> (r: &'static str)
    ensures
        r@ == "debugger-cli"@,
        plain_name(r@),
{
    proof {
        reveal_strlit("debugger-cli");
        let s = "debugger-cli"@;
        assert forall|i: int| 0 <= i < s.len() implies ('a' <= #[trigger] s[i] <= 'z' || '0' <= s[i] <= '9' || s[i]
            == '-') by {
            assert(s == seq!['d', 'e', 'b', 'u', 'g', 'g', 'e', 'r', '-', 'c', 'l', 'i']);
        }
    }
    "debugger-cli"
}

/// The configuration directory of an application with no qualifier and no
/// organization, by `directories::ProjectDirs::from("", "", application)`
/// and `ProjectDirs::config_dir`, as text. Whether there is one depends on
/// the environment; when there is, the crate builds it by joining the
/// application's project path (the plain name itself on every platform)
/// to a base directory, so the name is one of its components. Which base
/// directory it is depends on the environment and is not stated.
#[verifier::external_body]
fn config_dir_for(application: &str) -> (r: Option<String>)
    requires
        plain_name(application@),
    ensures
        r matches Some(p) ==> path_has_component(p@, application@),
{
    directories::ProjectDirs::from("", "", application).map(|d| d.config_dir().to_string_lossy().into_owned())
}

/// The data directory of an application with no qualifier and no
/// organization, by `directories::ProjectDirs::from("", "", application)`
/// and `ProjectDirs::data_dir`, as text; as for the configuration
/// directory, the name is one of its components, and the base directory is
/// not stated.
#[verifier::external_body]
fn data_dir_for(application: &str) -> (r: Option<String>)
    requires
        plain_name(application@),
    ensures
        r matches Some(p) ==> path_has_component(p@, application@),
{
    directories::ProjectDirs::from("", "", application).map(|d| d.data_dir().to_string_lossy().into_owned())
}

/// The configuration directory, when the platform has one: a directory
/// named after the application.
pub fn config_dir() -> (r: Option<String>)
    ensures
        r matches Some(p) ==> path_has_component(p@, "debugger-cli"@),
{
    config_dir_for(application_name())
}

/// The data directory, when the platform has one: a directory named after
/// the application.
pub fn data_dir() -> (r: Option<String>)
    ensures
        r matches Some(p) ==> path_has_component(p@, "debugger-cli"@),
{
    data_dir_for(application_name())
}

/// `name` inside an optional directory.
pub fn inside_dir(dir: Option<String>, name: &str) -> (r: Option<String>)
    ensures
        match dir {
            Some(d) => (r matches Some(p) && p@ == path_join(d@, name@)),
            None => r is None,
        },
{
    match dir {
        Some(d) => Some(join_path(d.as_str(), name)),
        None => None,
    }
}

/// The configuration file inside a configuration directory, when there is
/// one.
pub fn config_path_in(config_dir: Option<String>) -> (r: Option<String>)
    ensures
        match config_dir {
            Some(d) => (r matches Some(p) && p@ == path_join(d@, "config.toml"@)),
            None => r is None,
        },
{
    inside_dir(config_dir, "config.toml")
}

/// The log directory inside a data directory, when there is one.
pub fn log_dir_in(data_dir: Option<String>) -> (r: Option<String>)
    ensures
        match data_dir {
            Some(d) => (r matches Some(p) && p@ == path_join(d@, "logs"@)),
            None => r is None,
        },
{
    inside_dir(data_dir, "logs")
}

/// The configuration file, `config.toml` in the configuration directory;
/// `None` when the platform gives no configuration directory.
pub fn config_path() -> (r: Option<String>)
    ensures
        r matches Some(p) ==> exists|d: Seq<char>|
            path_has_component(d, "debugger-cli"@) && p@ == #[trigger] path_join(d, "config.toml"@),
{
    config_path_in(config_dir())
}

/// The log directory, `logs` in the data directory; `None` when the
/// platform gives no data directory.
pub fn log_dir() -> (r: Option<String>)
    ensures
        r matches Some(p) ==> exists|d: Seq<char>|
            path_has_component(d, "debugger-cli"@) && p@ == #[trigger] path_join(d, "logs"@),
{
    log_dir_in(data_dir())
}

} // verus!
