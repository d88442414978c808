//! The crate's error type and the error value carried over IPC.

use vstd::prelude::*;

verus! {

/// Errors of the debugger, each with the data its message shows.
#[derive(Debug, Clone)]
pub enum Error {
    DaemonNotRunning,
    DaemonSpawnTimeout(u64),
    DaemonConnectionFailed(String),
    DaemonCommunication(String),
    SessionNotActive,
    SessionAlreadyActive,
    SessionTerminated(String),
    ProgramExited(i32),
    AdapterNotFound { name: String, searched: String },
    AdapterStartFailed(String),
    AdapterCrashed,
    AdapterError(String),
    DapProtocol(String),
    DapRequestFailed { command: String, message: String },
    DapInitFailed(String),
    InvalidLocation(String),
    BreakpointNotFound { id: u32 },
    BreakpointFailed { location: String, reason: String },
    WatchpointNotFound { id: u32 },
    InvalidState { action: String, state: String },
    ThreadNotFound(i64),
    FrameNotFound(usize),
    NotSupported(String),
    Timeout(u64),
    AwaitTimeout(u64),
    Config(String),
    ConfigParse(String),
    Io(String),
    FileRead { path: String, error: String },
    Json(String),
    TestAssertion(String),
    Internal(String),
}


/// `a`, then `b`, then `c`.
pub fn text3(a: &str, b: &[char], c: &str) -> (r: String)
    ensures
        r@ == a@ + b@ + c@,
{
    let mut m = crate::text::chars_of(a);
    crate::text::append(&mut m, b);
    crate::text::append_str(&mut m, c);
    crate::text::string_from(m.as_slice())
}

/// `a`, `b`, `c`, `d`, then `e`.
pub fn text5(a: &str, b: &[char], c: &str, d: &[char], e: &str) -> (r: String)
    ensures
        r@ == a@ + b@ + c@ + d@ + e@,
{
    let mut m = crate::text::chars_of(a);
    crate::text::append(&mut m, b);
    crate::text::append_str(&mut m, c);
    crate::text::append(&mut m, d);
    crate::text::append_str(&mut m, e);
    crate::text::string_from(m.as_slice())
}

/// `a`, then the text `s`, then `c`.
fn text_s(a: &str, s: &String, c: &str) -> (r: String)
    ensures
        r@ == a@ + s@ + c@,
{
    let cs = crate::text::chars_of(s.as_str());
    text3(a, cs.as_slice(), c)
}

/// `a`, then the decimal form of `n`, then `c`.
fn text_n(a: &str, n: u64, c: &str) -> (r: String)
    ensures
        r@ == a@ + crate::number::decimal_of(n as nat) + c@,
{
    let d = crate::number::decimal_chars(n);
    text3(a, d.as_slice(), c)
}

/// `a`, then the signed decimal form of `n`, then `c`.
fn text_i(a: &str, n: i64, c: &str) -> (r: String)
    ensures
        r@ == a@ + crate::number::signed_decimal_of(n as int) + c@,
{
    let d = crate::number::signed_decimal_chars(n);
    text3(a, d.as_slice(), c)
}

/// The message an error shows.
pub open spec fn error_text(e: Error) -> Seq<char> {
    match e {
        Error::DaemonNotRunning => "Daemon not running. Start a session with 'debugger start <program>'"@,
        Error::DaemonSpawnTimeout(n) => "Failed to spawn daemon: timed out waiting for socket after "@
            + crate::number::decimal_of(n as nat) + " seconds"@,
        Error::DaemonConnectionFailed(s) => "Failed to connect to daemon: "@ + s@,
        Error::DaemonCommunication(s) => "Daemon communication error: "@ + s@,
        Error::SessionNotActive => "No debug session active. Use 'debugger start <program>' or 'debugger attach <pid>' first"@,
        Error::SessionAlreadyActive => "Debug session already active. Use 'debugger stop' first to end current session"@,
        Error::SessionTerminated(s) => "Session terminated unexpectedly: "@ + s@,
        Error::ProgramExited(c) => "Program has exited with code "@ + crate::number::signed_decimal_of(
            c as int,
        ),
        Error::AdapterNotFound { name, searched } => "Debug adapter '"@ + name@ + "' not found. Searched: "@
            + searched@,
        Error::AdapterStartFailed(s) => "Debug adapter failed to start: "@ + s@,
        Error::AdapterCrashed => "Debug adapter crashed unexpectedly"@,
        Error::AdapterError(s) => "Debug adapter returned error: "@ + s@,
        Error::DapProtocol(s) => "DAP protocol error: "@ + s@,
        Error::DapRequestFailed { command, message } => "DAP request '"@ + command@ + "' failed: "@
            + message@,
        Error::DapInitFailed(s) => "DAP initialization failed: "@ + s@,
        Error::InvalidLocation(s) => "Invalid breakpoint location: "@ + s@,
        Error::BreakpointNotFound { id } => "Breakpoint "@ + crate::number::decimal_of(id as nat)
            + " not found"@,
        Error::BreakpointFailed { location, reason } => "Failed to set breakpoint at "@ + location@
            + ": "@ + reason@,
        Error::WatchpointNotFound { id } => "Watchpoint "@ + crate::number::decimal_of(id as nat)
            + " not found"@,
        Error::InvalidState { action, state } => "Cannot "@ + action@ + " while program is "@ + state@,
        Error::ThreadNotFound(t) => "Thread "@ + crate::number::signed_decimal_of(t as int)
            + " not found"@,
        Error::FrameNotFound(f) => "Frame "@ + crate::number::decimal_of(f as nat) + " not found"@,
        Error::NotSupported(s) => "Not supported: "@ + s@,
        Error::Timeout(n) => "Operation timed out after "@ + crate::number::decimal_of(n as nat)
            + " seconds"@,
        Error::AwaitTimeout(n) => "Await timed out after "@ + crate::number::decimal_of(n as nat)
            + " seconds. Program may still be running - use 'debugger status' to check"@,
        Error::Config(s) => "Configuration error: "@ + s@,
        Error::ConfigParse(s) => "Invalid configuration file: "@ + s@,
        Error::Io(s) => "IO error: "@ + s@,
        Error::FileRead { path, error } => "Failed to read file '"@ + path@ + "': "@ + error@,
        Error::Json(s) => "JSON error: "@ + s@,
        Error::TestAssertion(s) => "Test assertion failed: "@ + s@,
        Error::Internal(s) => "Internal error: "@ + s@,
    }
}

/// The error code that IPC carries for an error.
pub open spec fn error_code(e: Error) -> Seq<char> {
    match e {
        Error::DaemonNotRunning => "DAEMON_NOT_RUNNING"@,
        Error::SessionNotActive => "SESSION_NOT_ACTIVE"@,
        Error::SessionAlreadyActive => "SESSION_ALREADY_ACTIVE"@,
        Error::AdapterNotFound { .. } => "ADAPTER_NOT_FOUND"@,
        Error::InvalidLocation(_) => "INVALID_LOCATION"@,
        Error::BreakpointNotFound { .. } => "BREAKPOINT_NOT_FOUND"@,
        Error::InvalidState { .. } => "INVALID_STATE"@,
        Error::ThreadNotFound(_) => "THREAD_NOT_FOUND"@,
        Error::FrameNotFound(_) => "FRAME_NOT_FOUND"@,
        Error::Timeout(_) | Error::AwaitTimeout(_) => "TIMEOUT"@,
        Error::ProgramExited(_) => "PROGRAM_EXITED"@,
        Error::DapRequestFailed { .. } => "DAP_REQUEST_FAILED"@,
        _ => "INTERNAL_ERROR"@,
    }
}

/// Appending the empty literal changes nothing.
pub proof fn lemma_empty_suffix()
    ensures
        forall|x: Seq<char>| #[trigger] (x + ""@) == x,
{
    reveal_strlit("");
    assert forall|x: Seq<char>| #[trigger] (x + ""@) == x by {
        assert(x + ""@ =~= x);
    }
}

impl Error {
    /// The message the error shows.
    #[verifier::rlimit(50)]
    pub fn message(&self) -> (r: String)
        ensures
            r@ == error_text(*self),
    {
        proof {
            lemma_empty_suffix();
        }
        let r = match self {
            Error::DaemonNotRunning => String::from_str(
                "Daemon not running. Start a session with 'debugger start <program>'",
            ),
            Error::DaemonSpawnTimeout(n) => text_n(
                "Failed to spawn daemon: timed out waiting for socket after ",
                *n,
                " seconds",
            ),
            Error::DaemonConnectionFailed(s) => text_s("Failed to connect to daemon: ", s, ""),
            Error::DaemonCommunication(s) => text_s("Daemon communication error: ", s, ""),
            Error::SessionNotActive => String::from_str(
                "No debug session active. Use 'debugger start <program>' or 'debugger attach <pid>' first",
            ),
            Error::SessionAlreadyActive => String::from_str(
                "Debug session already active. Use 'debugger stop' first to end current session",
            ),
            Error::SessionTerminated(s) => text_s("Session terminated unexpectedly: ", s, ""),
            Error::ProgramExited(c) => text_i("Program has exited with code ", *c as i64, ""),
            Error::AdapterNotFound { name, searched } => {
                let n = crate::text::chars_of(name.as_str());
                let s = crate::text::chars_of(searched.as_str());
                text5("Debug adapter '", n.as_slice(), "' not found. Searched: ", s.as_slice(), "")
            },
            Error::AdapterStartFailed(s) => text_s("Debug adapter failed to start: ", s, ""),
            Error::AdapterCrashed => String::from_str("Debug adapter crashed unexpectedly"),
            Error::AdapterError(s) => text_s("Debug adapter returned error: ", s, ""),
            Error::DapProtocol(s) => text_s("DAP protocol error: ", s, ""),
            Error::DapRequestFailed { command, message } => {
                let c = crate::text::chars_of(command.as_str());
                let m = crate::text::chars_of(message.as_str());
                text5("DAP request '", c.as_slice(), "' failed: ", m.as_slice(), "")
            },
            Error::DapInitFailed(s) => text_s("DAP initialization failed: ", s, ""),
            Error::InvalidLocation(s) => text_s("Invalid breakpoint location: ", s, ""),
            Error::BreakpointNotFound { id } => text_n("Breakpoint ", *id as u64, " not found"),
            Error::BreakpointFailed { location, reason } => {
                let l = crate::text::chars_of(location.as_str());
                let r = crate::text::chars_of(reason.as_str());
                text5("Failed to set breakpoint at ", l.as_slice(), ": ", r.as_slice(), "")
            },
            Error::WatchpointNotFound { id } => text_n("Watchpoint ", *id as u64, " not found"),
            Error::InvalidState { action, state } => {
                let a = crate::text::chars_of(action.as_str());
                let s = crate::text::chars_of(state.as_str());
                text5("Cannot ", a.as_slice(), " while program is ", s.as_slice(), "")
            },
            Error::ThreadNotFound(t) => text_i("Thread ", *t, " not found"),
            Error::FrameNotFound(f) => text_n("Frame ", *f as u64, " not found"),
            Error::NotSupported(s) => text_s("Not supported: ", s, ""),
            Error::Timeout(n) => text_n("Operation timed out after ", *n, " seconds"),
            Error::AwaitTimeout(n) => text_n(
                "Await timed out after ",
                *n,
                " seconds. Program may still be running - use 'debugger status' to check",
            ),
            Error::Config(s) => text_s("Configuration error: ", s, ""),
            Error::ConfigParse(s) => text_s("Invalid configuration file: ", s, ""),
            Error::Io(s) => text_s("IO error: ", s, ""),
            Error::FileRead { path, error } => {
                let p = crate::text::chars_of(path.as_str());
                let e = crate::text::chars_of(error.as_str());
                text5("Failed to read file '", p.as_slice(), "': ", e.as_slice(), "")
            },
            Error::Json(s) => text_s("JSON error: ", s, ""),
            Error::TestAssertion(s) => text_s("Test assertion failed: ", s, ""),
            Error::Internal(s) => text_s("Internal error: ", s, ""),
        };
        r
    }

    /// An adapter-not-found error listing the places searched, joined by `, `.
    pub fn adapter_not_found(name: &str, paths: &[String]) -> (r: Self)
        ensures
            r matches Error::AdapterNotFound { name: n, searched } && n@ == name@ && searched@
                == crate::text::joined(paths@.map_values(|p: String| p@), ", "@),
    {
        let mut parts: Vec<Vec<char>> = Vec::new();
        let mut i: usize = 0;
        while i < paths.len()
            invariant
                i <= paths@.len(),
                crate::text::views(parts@) == paths@.take(i as int).map_values(|p: String| p@),
            decreases paths@.len() - i,
        {
            let part = crate::text::chars_of(paths[i].as_str());
            proof {
                crate::text::lemma_views_push(parts@, part);
            }
            parts.push(part);
            i = i + 1;
            proof {
                assert(crate::text::views(parts@) =~= paths@.take(i as int).map_values(
                    |p: String| p@,
                ));
            }
        }
        proof {
            assert(paths@.take(paths@.len() as int) =~= paths@);
        }
        let sep = crate::text::chars_of(", ");
        let joined = crate::text::join(parts.as_slice(), sep.as_slice());
        Error::AdapterNotFound {
            name: String::from_str(name),
            searched: crate::text::string_from(joined.as_slice()),
        }
    }

    /// A failed-request error.
    pub fn dap_request_failed(command: &str, message: &str) -> (r: Self)
        ensures
            r matches Error::DapRequestFailed { command: c, message: m } && c@ == command@ && m@
                == message@,
    {
        Error::DapRequestFailed { command: String::from_str(command), message: String::from_str(message) }
    }

    /// An invalid-state error.
    pub fn invalid_state(action: &str, state: &str) -> (r: Self)
        ensures
            r matches Error::InvalidState { action: a, state: s } && a@ == action@ && s@ == state@,
    {
        Error::InvalidState { action: String::from_str(action), state: String::from_str(state) }
    }

    /// A failed-breakpoint error.
    pub fn breakpoint_failed(location: &str, reason: &str) -> (r: Self)
        ensures
            r matches Error::BreakpointFailed { location: l, reason: m } && l@ == location@ && m@
                == reason@,
    {
        Error::BreakpointFailed { location: String::from_str(location), reason: String::from_str(reason) }
    }
}

/// The error value a daemon response carries.
#[derive(Debug, Clone)]
pub struct IpcError {
    pub code: String,
    pub message: String,
}

/// The error that a client rebuilds from an IPC error.
pub open spec fn error_from_ipc(code: Seq<char>, message: Seq<char>, e: Error) -> bool {
    if code == "SESSION_NOT_ACTIVE"@ {
        e is SessionNotActive
    } else if code == "SESSION_ALREADY_ACTIVE"@ {
        e is SessionAlreadyActive
    } else if code == "TIMEOUT"@ {
        e == Error::Timeout(0)
    } else {
        e matches Error::DaemonCommunication(m) && m@ == message
    }
}

impl IpcError {
    /// The IPC form of an error: its code and its message.
    pub fn from_error(e: &Error) -> (r: IpcError)
        ensures
            r.code@ == error_code(*e),
            r.message@ == error_text(*e),
    {
        let code = match e {
            Error::DaemonNotRunning => "DAEMON_NOT_RUNNING",
            Error::SessionNotActive => "SESSION_NOT_ACTIVE",
            Error::SessionAlreadyActive => "SESSION_ALREADY_ACTIVE",
            Error::AdapterNotFound { .. } => "ADAPTER_NOT_FOUND",
            Error::InvalidLocation(_) => "INVALID_LOCATION",
            Error::BreakpointNotFound { .. } => "BREAKPOINT_NOT_FOUND",
            Error::InvalidState { .. } => "INVALID_STATE",
            Error::ThreadNotFound(_) => "THREAD_NOT_FOUND",
            Error::FrameNotFound(_) => "FRAME_NOT_FOUND",
            Error::Timeout(_) | Error::AwaitTimeout(_) => "TIMEOUT",
            Error::ProgramExited(_) => "PROGRAM_EXITED",
            Error::DapRequestFailed { .. } => "DAP_REQUEST_FAILED",
            _ => "INTERNAL_ERROR",
        };
        IpcError { code: String::from_str(code), message: e.message() }
    }

    /// The error a client rebuilds from this IPC error.
    pub fn into_error(self) -> (r: Error)
        ensures
            error_from_ipc(self.code@, self.message@, r),
    {
        let code = crate::text::chars_of(self.code.as_str());
        if crate::text::eq_str(code.as_slice(), "SESSION_NOT_ACTIVE") {
            Error::SessionNotActive
        } else if crate::text::eq_str(code.as_slice(), "SESSION_ALREADY_ACTIVE") {
            Error::SessionAlreadyActive
        } else if crate::text::eq_str(code.as_slice(), "TIMEOUT") {
            Error::Timeout(0)
        } else {
            Error::DaemonCommunication(self.message)
        }
    }
}

/// Sending an error to a client and rebuilding it there keeps "no session"
/// and "session already active", turns every timeout into a timeout with no
/// duration, and turns every other error into a communication error that
/// carries the original message.
pub proof fn law_ipc_error_roundtrip(e: Error, back: Error)
    requires
        error_from_ipc(error_code(e), error_text(e), back),
    ensures
        e is SessionNotActive ==> back is SessionNotActive,
        e is SessionAlreadyActive ==> back is SessionAlreadyActive,
        (e is Timeout || e is AwaitTimeout) ==> back == Error::Timeout(0),
        !(e is SessionNotActive || e is SessionAlreadyActive || e is Timeout || e is AwaitTimeout)
            ==> (back matches Error::DaemonCommunication(m) && m@ == error_text(e)),
{
    reveal_strlit("SESSION_NOT_ACTIVE");
    reveal_strlit("SESSION_ALREADY_ACTIVE");
    reveal_strlit("TIMEOUT");
    reveal_strlit("DAEMON_NOT_RUNNING");
    reveal_strlit("ADAPTER_NOT_FOUND");
    reveal_strlit("INVALID_LOCATION");
    reveal_strlit("BREAKPOINT_NOT_FOUND");
    reveal_strlit("INVALID_STATE");
    reveal_strlit("THREAD_NOT_FOUND");
    reveal_strlit("FRAME_NOT_FOUND");
    reveal_strlit("PROGRAM_EXITED");
    reveal_strlit("DAP_REQUEST_FAILED");
    reveal_strlit("INTERNAL_ERROR");
    assert("SESSION_NOT_ACTIVE"@.len() == 18);
    assert("SESSION_ALREADY_ACTIVE"@.len() == 22);
    assert("TIMEOUT"@.len() == 7);
    assert("SESSION_ALREADY_ACTIVE"@ != "SESSION_NOT_ACTIVE"@);
    assert("TIMEOUT"@ != "SESSION_NOT_ACTIVE"@);
    assert("TIMEOUT"@ != "SESSION_ALREADY_ACTIVE"@);
    assert("DAEMON_NOT_RUNNING"@[0] == 'D' && "SESSION_NOT_ACTIVE"@[0] == 'S');
    assert("DAP_REQUEST_FAILED"@[0] == 'D');
    assert("DAEMON_NOT_RUNNING"@ != "SESSION_NOT_ACTIVE"@);
    assert("DAP_REQUEST_FAILED"@ != "SESSION_NOT_ACTIVE"@);
    assert("ADAPTER_NOT_FOUND"@.len() == 17);
    assert("INVALID_LOCATION"@.len() == 16);
    assert("BREAKPOINT_NOT_FOUND"@.len() == 20);
    assert("INVALID_STATE"@.len() == 13);
    assert("THREAD_NOT_FOUND"@.len() == 16);
    assert("FRAME_NOT_FOUND"@.len() == 15);
    assert("PROGRAM_EXITED"@.len() == 14);
    assert("INTERNAL_ERROR"@.len() == 14);
    assert("DAEMON_NOT_RUNNING"@.len() == 18);
    assert("DAP_REQUEST_FAILED"@.len() == 18);
}

} // verus!
