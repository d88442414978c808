//! The view of the session that the daemon publishes after every command
//! and event, for `await` to watch.

use crate::daemon::session::{SessionCore, SessionState};
use crate::dap::types::StoppedEventBody;
use vstd::prelude::*;

verus! {

/// What the daemon publishes of the session.
#[derive(Debug, Clone)]
pub struct SessionSnapshot {
    pub session_active: bool,
    pub state: Option<SessionState>,
    /// The stop event's body, when the stop came from the adapter.
    pub last_stop: Option<StoppedEventBody>,
    /// The stop reason for stops without an event (attach, stop on entry).
    pub stopped_reason: Option<String>,
    pub stopped_thread: Option<i64>,
    pub exit_code: Option<i32>,
}

/// The view of an optional string.
pub open spec fn opt_text(o: Option<String>) -> Option<Seq<char>> {
    match o {
        Some(s) => Some(s@),
        None => None,
    }
}

/// A snapshot as plain values.
pub open spec fn snapshot_view(s: SessionSnapshot) -> (
    bool,
    Option<SessionState>,
    Option<crate::dap::types::StoppedView>,
    Option<Seq<char>>,
    Option<i64>,
    Option<i32>,
) {
    (
        s.session_active,
        s.state,
        match s.last_stop {
            Some(b) => Some(crate::dap::types::stopped_view(b)),
            None => None,
        },
        opt_text(s.stopped_reason),
        s.stopped_thread,
        s.exit_code,
    )
}

impl Default for SessionSnapshot {
    fn default() -> (r: Self)
        ensures
            !r.session_active,
            r.state is None,
            r.last_stop is None,
            r.stopped_reason is None,
            r.stopped_thread is None,
            r.exit_code is None,
    {
        SessionSnapshot {
            session_active: false,
            state: None,
            last_stop: None,
            stopped_reason: None,
            stopped_thread: None,
            exit_code: None,
        }
    }
}

/// A copy of an optional string.
fn copy_text(o: &Option<String>) -> (r: Option<String>)
    ensures
        opt_text(r) == opt_text(*o),
{
    match o {
        Some(s) => Some(s.clone()),
        None => None,
    }
}

/// A copy of a stop event's body.
fn copy_stop(b: &StoppedEventBody) -> (r: StoppedEventBody)
    ensures
        crate::dap::types::stopped_view(r) == crate::dap::types::stopped_view(*b),
{
    StoppedEventBody {
        reason: b.reason.clone(),
        description: copy_text(&b.description),
        thread_id: b.thread_id,
        all_threads_stopped: b.all_threads_stopped,
        hit_breakpoint_ids: vstd::slice::slice_to_vec(b.hit_breakpoint_ids.as_slice()),
        text: copy_text(&b.text),
    }
}

/// The snapshot of an active session.
pub fn snapshot_of(core: &SessionCore, last_stop: Option<&StoppedEventBody>) -> (r: SessionSnapshot)
    ensures
        r.session_active,
        r.state == Some(core.state),
        match last_stop {
            Some(b) => (r.last_stop matches Some(x) && crate::dap::types::stopped_view(x)
                == crate::dap::types::stopped_view(*b)),
            None => r.last_stop is None,
        },
        opt_text(r.stopped_reason) == opt_text(core.stopped_reason),
        r.stopped_thread == core.stopped_thread,
        r.exit_code == core.exit_code,
{
    SessionSnapshot {
        session_active: true,
        state: Some(core.state),
        last_stop: match last_stop {
            Some(b) => Some(copy_stop(b)),
            None => None,
        },
        stopped_reason: copy_text(&core.stopped_reason),
        stopped_thread: core.stopped_thread,
        exit_code: core.exit_code,
    }
}

/// Whether two optional strings are equal.
fn same_text(a: &Option<String>, b: &Option<String>) -> (r: bool)
    ensures
        r == (opt_text(*a) == opt_text(*b)),
{
    match (a, b) {
        (Some(x), Some(y)) => {
            let xs = crate::text::chars_of(x.as_str());
            let ys = crate::text::chars_of(y.as_str());
            crate::text::seq_eq(xs.as_slice(), ys.as_slice())
        },
        (None, None) => true,
        _ => false,
    }
}

/// Whether two id lists are equal.
fn same_ids(a: &Vec<u32>, b: &Vec<u32>) -> (r: bool)
    ensures
        r == (a@ == b@),
{
    if a.len() != b.len() {
        return false;
    }
    let mut k: usize = 0;
    while k < a.len()
        invariant
            k <= a@.len(),
            a@.len() == b@.len(),
            forall|j: int| 0 <= j < k ==> a@[j] == b@[j],
        decreases a@.len() - k,
    {
        if a[k] != b[k] {
            return false;
        }
        k = k + 1;
    }
    proof {
        assert(a@ =~= b@);
    }
    true
}

/// Whether two stop bodies are equal.
fn same_stop(a: &Option<StoppedEventBody>, b: &Option<StoppedEventBody>) -> (r: bool)
    ensures
        r == (match *a {
            Some(x) => Some(crate::dap::types::stopped_view(x)),
            None => None,
        } == match *b {
            Some(y) => Some(crate::dap::types::stopped_view(y)),
            None => None,
        }),
{
    match (a, b) {
        (Some(x), Some(y)) => {
            let xr = crate::text::chars_of(x.reason.as_str());
            let yr = crate::text::chars_of(y.reason.as_str());
            crate::text::seq_eq(xr.as_slice(), yr.as_slice()) && same_text(&x.description, &y.description)
                && x.thread_id == y.thread_id && x.all_threads_stopped == y.all_threads_stopped && same_ids(
                &x.hit_breakpoint_ids,
                &y.hit_breakpoint_ids,
            ) && same_text(&x.text, &y.text)
        },
        (None, None) => true,
        _ => false,
    }
}

/// Whether a new snapshot differs from the published one, so that it must
/// be published.
pub fn snapshot_changed(current: &SessionSnapshot, next: &SessionSnapshot) -> (r: bool)
    ensures
        r == (snapshot_view(*current) != snapshot_view(*next)),
{
    !(current.session_active == next.session_active && current.state == next.state && same_stop(
        &current.last_stop,
        &next.last_stop,
    ) && same_text(&current.stopped_reason, &next.stopped_reason) && current.stopped_thread == next.stopped_thread
        && current.exit_code == next.exit_code)
}

} // verus!
