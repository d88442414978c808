//! The daemon server's decisions: what `await` answers from the published
//! snapshot, where a stop happened, and the answer while shutting down.

use crate::common::error::IpcError;
use crate::common::Error;
use crate::daemon::actor::SessionSnapshot;
use crate::daemon::session::SessionState;
use crate::ipc::protocol::{Response, StackFrameInfo, StopResult};
use crate::json::JsonValue;
use vstd::prelude::*;

verus! {

/// What `await` does with a snapshot.
#[derive(Debug)]
pub enum AwaitStep {
    /// The program stopped: build the stop result.
    Stopped,
    /// Answer at once.
    Reply(JsonValue),
    /// Wait for the next snapshot.
    Wait,
}

/// What `await` does with a snapshot: without a session it fails; a stop is
/// reported; an exit is reported with its code (a termination without one);
/// otherwise it waits.
pub fn await_step(snapshot: &SessionSnapshot) -> (r: Result<AwaitStep, Error>)
    ensures
        !snapshot.session_active ==> r == Err::<AwaitStep, Error>(Error::SessionNotActive),
        snapshot.session_active && snapshot.state == Some(SessionState::Stopped) ==> (r matches Ok(AwaitStep::Stopped)),
        snapshot.session_active && snapshot.state == Some(SessionState::Exited) ==> match snapshot.exit_code {
            Some(c) => (r matches Ok(AwaitStep::Reply(JsonValue::Object(e))) && e@.len() == 2 && e@[0].0@ == "reason"@
                && (e@[0].1 matches JsonValue::Str(t) && t@ == "exited"@) && e@[1].0@ == "exit_code"@ && e@[1].1
                == JsonValue::Number(c as i64)),
            None => (r matches Ok(AwaitStep::Reply(JsonValue::Object(e))) && e@.len() == 1 && e@[0].0@ == "reason"@
                && (e@[0].1 matches JsonValue::Str(t) && t@ == "terminated"@)),
        },
        snapshot.session_active && snapshot.state != Some(SessionState::Stopped) && snapshot.state != Some(
            SessionState::Exited,
        ) ==> (r matches Ok(AwaitStep::Wait)),
{
    if !snapshot.session_active {
        return Err(Error::SessionNotActive);
    }
    match snapshot.state {
        Some(SessionState::Stopped) => Ok(AwaitStep::Stopped),
        Some(SessionState::Exited) => {
            let mut e: Vec<(String, JsonValue)> = Vec::new();
            match snapshot.exit_code {
                Some(c) => {
                    e.push(crate::json::entry("reason", crate::json::jstr("exited")));
                    e.push(crate::json::entry("exit_code", JsonValue::Number(c as i64)));
                },
                None => {
                    e.push(crate::json::entry("reason", crate::json::jstr("terminated")));
                },
            }
            Ok(AwaitStep::Reply(JsonValue::Object(e)))
        },
        _ => Ok(AwaitStep::Wait),
    }
}

/// The view of an optional string.
pub open spec fn opt_text(o: Option<String>) -> Option<Seq<char>> {
    match o {
        Some(s) => Some(s@),
        None => None,
    }
}

/// A copy of an optional string.
fn copy_text(o: &Option<String>) -> (r: Option<String>)
    ensures
        opt_text(r) == opt_text(*o),
{
    match o {
        Some(s) => Some(s.clone()),
        None => None,
    }
}

/// The stop result `await` reports: the stop event's data when there was
/// one, else the snapshot's reason (or `unknown`) and thread, with all
/// threads stopped and no breakpoint hits; in both cases at the location
/// given.
pub fn stop_result_from(
    snapshot: &SessionSnapshot,
    source: Option<String>,
    line: Option<u32>,
    column: Option<u32>,
) -> (r: StopResult)
    ensures
        opt_text(r.source) == opt_text(source),
        r.line == line,
        r.column == column,
        match snapshot.last_stop {
            Some(b) => r.reason@ == b.reason@ && opt_text(r.description) == opt_text(b.description) && r.thread_id
                == b.thread_id && r.all_threads_stopped == b.all_threads_stopped && r.hit_breakpoint_ids@
                == b.hit_breakpoint_ids@,
            None => r.reason@ == match snapshot.stopped_reason {
                Some(s) => s@,
                None => "unknown"@,
            } && r.description is None && r.thread_id == snapshot.stopped_thread && r.all_threads_stopped
                && r.hit_breakpoint_ids@.len() == 0,
        },
{
    match &snapshot.last_stop {
        Some(b) => StopResult {
            reason: b.reason.clone(),
            description: copy_text(&b.description),
            thread_id: b.thread_id,
            all_threads_stopped: b.all_threads_stopped,
            hit_breakpoint_ids: vstd::slice::slice_to_vec(b.hit_breakpoint_ids.as_slice()),
            source,
            line,
            column,
        },
        None => StopResult {
            reason: match &snapshot.stopped_reason {
                Some(s) => s.clone(),
                None => String::from_str("unknown"),
            },
            description: None,
            thread_id: snapshot.stopped_thread,
            all_threads_stopped: true,
            hit_breakpoint_ids: Vec::new(),
            source,
            line,
            column,
        },
    }
}

/// The last name among `/`-separated parts, as `Path::file_name` gives it:
/// empty parts and `.` are skipped, and a path ending in `..` has none.
pub open spec fn last_name(parts: Seq<Seq<char>>) -> Option<Seq<char>>
    decreases parts.len(),
{
    if parts.len() == 0 {
        None
    } else {
        let p = parts.last();
        if p.len() == 0 || p == "."@ {
            last_name(parts.drop_last())
        } else if p == ".."@ {
            None
        } else {
            Some(p)
        }
    }
}

/// The file name of a path.
pub open spec fn file_name_of(path: Seq<char>) -> Option<Seq<char>> {
    last_name(crate::text::pieces(path, '/'))
}

/// The file name of a path.
pub fn file_name(path: &str) -> (r: Option<String>)
    ensures
        opt_text(r) == file_name_of(path@),
{
    let cs = crate::text::chars_of(path);
    let parts = crate::text::split_on(cs.as_slice(), '/');
    let ghost ps = crate::text::views(parts@);
    let mut k: usize = parts.len();
    proof {
        assert(ps.take(k as int) =~= ps);
    }
    while k > 0
        invariant
            k <= parts@.len(),
            ps == crate::text::views(parts@),
            ps.len() == parts@.len(),
            file_name_of(path@) == last_name(ps.take(k as int)),
        decreases k,
    {
        let p = parts[k - 1].as_slice();
        proof {
            assert(ps.take(k as int).last() == p@);
            assert(ps.take(k as int).drop_last() =~= ps.take(k - 1));
        }
        if p.len() == 0 || crate::text::eq_str(p, ".") {
            k = k - 1;
        } else if crate::text::eq_str(p, "..") {
            return None;
        } else {
            return Some(crate::text::string_from(p));
        }
    }
    None
}

/// Where the top frame stopped: its file name (or the whole source when
/// it has none), line and column; nothing without frames.
pub fn stop_location(frames: &[StackFrameInfo]) -> (r: (Option<String>, Option<u32>, Option<u32>))
    ensures
        frames@.len() == 0 ==> r.0 is None && r.1 is None && r.2 is None,
        frames@.len() > 0 ==> opt_text(r.0) == match frames@[0].source {
            Some(p) => match file_name_of(p@) {
                Some(n) => Some(n),
                None => Some(p@),
            },
            None => None,
        } && r.1 == frames@[0].line && r.2 == frames@[0].column,
{
    if frames.len() == 0 {
        return (None, None, None);
    }
    let f = &frames[0];
    let source = match &f.source {
        Some(p) => match file_name(p.as_str()) {
            Some(n) => Some(n),
            None => Some(p.clone()),
        },
        None => None,
    };
    (source, f.line, f.column)
}

/// The answer to a command that arrives while the daemon shuts down.
pub fn daemon_stopping_response(id: u64) -> (r: Response)
    ensures
        r.id == id,
        !r.success,
        r.result is None,
        r.error matches Some(e) && e.code@ == "INTERNAL_ERROR"@ && e.message@ == "Internal error: "@
            + "daemon is shutting down"@,
{
    let e = Error::Internal(String::from_str("daemon is shutting down"));
    Response::error(id, IpcError::from_error(&e))
}

/// The daemon: its configuration, and when its main loop ends.
pub struct Daemon {
    pub config: crate::common::config::Config,
}

impl Daemon {
    /// A daemon with the loaded configuration.
    pub fn new(config: crate::common::config::Config) -> (r: Self)
        ensures
            r.config == config,
    {
        Daemon { config }
    }

    /// How long, in seconds, the daemon waits without a session before it
    /// exits.
    pub fn idle_timeout_secs(&self) -> (r: u64)
        requires
            self.config.daemon.idle_timeout_minutes * 60 <= u64::MAX,
        ensures
            r == self.config.daemon.idle_timeout_minutes * 60,
    {
        self.config.daemon.idle_timeout_minutes * 60
    }

    /// Whether the main loop ends: on a shutdown request, or when no session
    /// is active and the time since the last activity (`elapsed_secs` whole
    /// seconds and `elapsed_nanos` more) exceeds the idle timeout.
    pub fn should_stop(&self, session_active: bool, elapsed_secs: u64, elapsed_nanos: u32, shutdown: bool) -> (r:
        bool)
        requires
            self.config.daemon.idle_timeout_minutes * 60 <= u64::MAX,
        ensures
            r == (shutdown || (!session_active && (elapsed_secs > self.config.daemon.idle_timeout_minutes * 60 || (
            elapsed_secs == self.config.daemon.idle_timeout_minutes * 60 && elapsed_nanos > 0)))),
    {
        let timeout = self.idle_timeout_secs();
        let idle = !session_active && (elapsed_secs > timeout || (elapsed_secs == timeout && elapsed_nanos > 0));
        idle || shutdown
    }
}

} // verus!
