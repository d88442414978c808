//! The bookkeeping of a debug session: its state machine, the output it
//! buffers, and the launch arguments it sends. The adapter connection
//! itself lives with the daemon's runtime.

use crate::common::config::AdapterType;
use crate::common::Error;
use crate::dap::types::{Event, LaunchArguments, Scope, Thread};
use crate::ipc::protocol::MemoryReadResult;
use std::collections::VecDeque;
use vstd::prelude::*;

verus! {

/// The state of a debug session.
#[derive(Debug, Clone, Copy, PartialEq, Eq, Structural)]
pub enum SessionState {
    /// No session.
    Idle,
    /// The adapter is starting.
    Initializing,
    /// Initial breakpoints are being set.
    Configuring,
    /// The program runs.
    Running,
    /// The program is stopped (breakpoint, step, exception).
    Stopped,
    /// The program has exited.
    Exited,
    /// The session is ending.
    Terminating,
}

/// The name of a state.
pub open spec fn state_name(s: SessionState) -> Seq<char> {
    match s {
        SessionState::Idle => "idle"@,
        SessionState::Initializing => "initializing"@,
        SessionState::Configuring => "configuring"@,
        SessionState::Running => "running"@,
        SessionState::Stopped => "stopped"@,
        SessionState::Exited => "exited"@,
        SessionState::Terminating => "terminating"@,
    }
}

impl SessionState {
    /// The state's name.
    pub fn as_str(&self) -> (r: &'static str)
        ensures
            r@ == state_name(*self),
    {
        match self {
            SessionState::Idle => "idle",
            SessionState::Initializing => "initializing",
            SessionState::Configuring => "configuring",
            SessionState::Running => "running",
            SessionState::Stopped => "stopped",
            SessionState::Exited => "exited",
            SessionState::Terminating => "terminating",
        }
    }
}

/// A piece of the program's output.
#[derive(Debug, Clone)]
pub struct OutputEvent {
    /// Its category (`stdout`, `stderr`, `console`, ...).
    pub category: String,
    /// The text.
    pub output: String,
}

/// An output piece as plain values.
pub open spec fn output_piece(e: OutputEvent) -> (Seq<char>, Seq<char>) {
    (e.category@, e.output@)
}

/// Output pieces as plain values.
pub open spec fn output_pieces(es: Seq<OutputEvent>) -> Seq<(Seq<char>, Seq<char>)> {
    es.map_values(|e: OutputEvent| output_piece(e))
}

/// The program's output, oldest first, holding at most `max` pieces (and
/// never fewer than the newest one).
pub struct OutputBuffer {
    events: VecDeque<OutputEvent>,
    max: usize,
}

/// The buffer after appending a piece: the oldest piece goes first when the
/// buffer is full.
pub open spec fn after_append(
    buf: Seq<(Seq<char>, Seq<char>)>,
    max: nat,
    piece: (Seq<char>, Seq<char>),
) -> Seq<(Seq<char>, Seq<char>)> {
    if buf.len() >= max && buf.len() > 0 {
        buf.drop_first().push(piece)
    } else {
        buf.push(piece)
    }
}

/// The largest number of pieces a buffer with limit `max` holds.
pub open spec fn capacity(max: nat) -> nat {
    if max == 0 {
        1
    } else {
        max
    }
}

/// The last `n` pieces, or all of them when there are fewer.
pub open spec fn tail_of<A>(s: Seq<A>, n: nat) -> Seq<A> {
    if n >= s.len() {
        s
    } else {
        s.skip(s.len() - n)
    }
}

impl OutputBuffer {
    /// The pieces, oldest first.
    pub closed spec fn pieces(&self) -> Seq<(Seq<char>, Seq<char>)> {
        output_pieces(self.events@)
    }

    /// The limit the buffer was made with.
    pub closed spec fn limit(&self) -> nat {
        self.max as nat
    }

    /// The buffer holds no more than its capacity.
    pub closed spec fn wf(&self) -> bool {
        self.events@.len() <= capacity(self.max as nat)
    }

    /// An empty buffer with the given limit.
    pub fn new(max: usize) -> (r: Self)
        ensures
            r.wf(),
            r.pieces().len() == 0,
            r.limit() == max,
    {
        let r = OutputBuffer { events: VecDeque::new(), max };
        proof {
            assert(r.pieces() =~= Seq::<(Seq<char>, Seq<char>)>::empty());
        }
        r
    }

    /// The number of pieces.
    pub fn len(&self) -> (r: usize)
        ensures
            r == self.pieces().len(),
    {
        self.events.len()
    }

    /// Appends a piece of output.
    pub fn push(&mut self, category: String, output: String)
        requires
            old(self).wf(),
        ensures
            final(self).wf(),
            final(self).limit() == old(self).limit(),
            final(self).pieces() == after_append(old(self).pieces(), old(self).limit(), (category@, output@)),
    {
        let ghost before = self.events@;
        if self.events.len() >= self.max && self.events.len() > 0 {
            let _ = self.events.pop_front();
            proof {
                assert(output_pieces(self.events@) =~= output_pieces(before).drop_first());
            }
        }
        let ghost mid = self.events@;
        let e = OutputEvent { category, output };
        self.events.push_back(e);
        proof {
            assert(output_pieces(self.events@) =~= output_pieces(mid).push(output_piece(e)));
        }
    }

    /// The last `tail` pieces (all of them without a tail), oldest first;
    /// with `clear`, the buffer is emptied afterwards.
    pub fn take(&mut self, tail: Option<usize>, clear: bool) -> (r: Vec<OutputEvent>)
        requires
            old(self).wf(),
        ensures
            final(self).wf(),
            final(self).limit() == old(self).limit(),
            output_pieces(r@) == match tail {
                Some(n) => tail_of(old(self).pieces(), n as nat),
                None => old(self).pieces(),
            },
            final(self).pieces() == if clear {
                Seq::<(Seq<char>, Seq<char>)>::empty()
            } else {
                old(self).pieces()
            },
    {
        let n = self.events.len();
        let start: usize = match tail {
            Some(t) => if t >= n {
                0
            } else {
                n - t
            },
            None => 0,
        };
        let mut out: Vec<OutputEvent> = Vec::new();
        let mut k: usize = start;
        while k < n
            invariant
                start <= k <= n,
                n == self.events@.len(),
                output_pieces(out@) == output_pieces(self.events@.subrange(start as int, k as int)),
            decreases n - k,
        {
            let e = OutputEvent { category: self.events[k].category.clone(), output: self.events[k].output.clone() };
            proof {
                assert(output_pieces(out@.push(e)) =~= output_pieces(out@).push(output_piece(e)));
                assert(output_pieces(self.events@.subrange(start as int, k + 1)) =~= output_pieces(
                    self.events@.subrange(start as int, k as int),
                ).push(output_piece(self.events@[k as int])));
            }
            out.push(e);
            k = k + 1;
        }
        proof {
            let all = output_pieces(self.events@);
            assert(output_pieces(self.events@.subrange(start as int, n as int)) =~= all.subrange(start as int, n as int));
            match tail {
                Some(t) => {
                    if t >= n {
                        assert(all.subrange(0, n as int) =~= all);
                    } else {
                        assert(all.subrange(start as int, n as int) =~= all.skip(n - t));
                    }
                },
                None => {
                    assert(all.subrange(0, n as int) =~= all);
                },
            }
        }
        if clear {
            self.events.clear();
            proof {
                assert(output_pieces(self.events@) =~= Seq::<(Seq<char>, Seq<char>)>::empty());
            }
        }
        out
    }
}

/// Appending keeps the buffer within its capacity, keeps the newest piece
/// last, and drops at most the oldest piece.
pub proof fn law_output_bounded(buf: Seq<(Seq<char>, Seq<char>)>, max: nat, piece: (Seq<char>, Seq<char>))
    requires
        buf.len() <= capacity(max),
    ensures
        after_append(buf, max, piece).len() <= capacity(max),
        after_append(buf, max, piece).last() == piece,
        after_append(buf, max, piece).drop_last() == buf || after_append(buf, max, piece).drop_last()
            == buf.drop_first(),
{
    if buf.len() >= max && buf.len() > 0 {
        assert(buf.drop_first().push(piece).drop_last() =~= buf.drop_first());
    } else {
        assert(buf.push(piece).drop_last() =~= buf);
    }
}

/// Taking a tail gives the newest pieces, as many as asked for or all.
pub proof fn law_output_tail(buf: Seq<(Seq<char>, Seq<char>)>, n: nat)
    ensures
        tail_of(buf, n).len() == if n >= buf.len() {
            buf.len()
        } else {
            n
        },
        forall|i: int|
            0 <= i < tail_of(buf, n).len() ==> #[trigger] tail_of(buf, n)[i] == buf[buf.len() - tail_of(buf, n).len()
                + i],
{
}

/// Where a session stands: its state, why and where it stopped, how it
/// exited, and the output it keeps.
pub struct SessionCore {
    pub state: SessionState,
    pub stopped_thread: Option<i64>,
    pub stopped_reason: Option<String>,
    pub hit_breakpoints: Vec<u32>,
    pub current_frame: Option<i64>,
    pub exit_code: Option<i32>,
    pub output: OutputBuffer,
}

/// The view of an optional string.
pub open spec fn opt_text(o: Option<String>) -> Option<Seq<char>> {
    match o {
        Some(s) => Some(s@),
        None => None,
    }
}

/// What a session's core holds after an event, given what it held before.
pub open spec fn after_event(old: SessionCore, new: SessionCore, event: Event) -> bool {
    match event {
        Event::Stopped(body) => {
            &&& new.state == SessionState::Stopped
            &&& new.stopped_thread == body.thread_id
            &&& opt_text(new.stopped_reason) == Some(body.reason@)
            &&& new.hit_breakpoints@ == body.hit_breakpoint_ids@
            &&& new.current_frame is None
            &&& new.exit_code == old.exit_code
            &&& new.output.pieces() == old.output.pieces()
        },
        Event::Continued { .. } => {
            &&& new.state == SessionState::Running
            &&& new.stopped_thread is None
            &&& new.stopped_reason is None
            &&& new.hit_breakpoints@.len() == 0
            &&& new.current_frame is None
            &&& new.exit_code == old.exit_code
            &&& new.output.pieces() == old.output.pieces()
        },
        Event::Exited(body) => {
            &&& new.state == SessionState::Exited
            &&& new.exit_code == Some(body.exit_code)
            &&& unchanged_stop(old, new)
            &&& new.output.pieces() == old.output.pieces()
        },
        Event::Terminated(_) => {
            &&& new.state == SessionState::Exited
            &&& new.exit_code == old.exit_code
            &&& unchanged_stop(old, new)
            &&& new.output.pieces() == old.output.pieces()
        },
        Event::Output(body) => {
            let category = match body.category {
                Some(c) => c@,
                None => "console"@,
            };
            &&& new.state == old.state
            &&& new.exit_code == old.exit_code
            &&& unchanged_stop(old, new)
            &&& new.output.pieces() == after_append(old.output.pieces(), old.output.limit(), (category, body.output@))
        },
        _ => {
            &&& new.state == old.state
            &&& new.exit_code == old.exit_code
            &&& unchanged_stop(old, new)
            &&& new.output.pieces() == old.output.pieces()
        },
    }
}

/// The stop data did not change.
pub open spec fn unchanged_stop(old: SessionCore, new: SessionCore) -> bool {
    &&& new.stopped_thread == old.stopped_thread
    &&& opt_text(new.stopped_reason) == opt_text(old.stopped_reason)
    &&& new.hit_breakpoints@ == old.hit_breakpoints@
    &&& new.current_frame == old.current_frame
}

/// What inspecting the program gives in a state: allowed when stopped, the
/// exit code after an exit, else an invalid-state error.
pub open spec fn inspect_allowed(state: SessionState, exit_code: Option<i32>, r: Result<(), Error>) -> bool {
    match state {
        SessionState::Stopped => r is Ok,
        SessionState::Exited => r == Err::<(), Error>(Error::ProgramExited(
            match exit_code {
                Some(c) => c,
                None => 0,
            },
        )),
        _ => (r matches Err(Error::InvalidState { action, state: s }) && action@ == "inspect"@ && s@ == state_name(
            state,
        )),
    }
}

impl SessionCore {
    /// A session core in a state, with nothing else known yet.
    pub fn new(state: SessionState, stopped_reason: Option<String>, max_output_events: usize) -> (r: Self)
        ensures
            r.state == state,
            r.stopped_thread is None,
            opt_text(r.stopped_reason) == opt_text(stopped_reason),
            r.hit_breakpoints@.len() == 0,
            r.current_frame is None,
            r.exit_code is None,
            r.output.wf(),
            r.output.pieces().len() == 0,
            r.output.limit() == max_output_events,
    {
        SessionCore {
            state,
            stopped_thread: None,
            stopped_reason,
            hit_breakpoints: Vec::new(),
            current_frame: None,
            exit_code: None,
            output: OutputBuffer::new(max_output_events),
        }
    }

    /// Takes an event from the adapter into account.
    pub fn handle_event(&mut self, event: &Event)
        requires
            old(self).output.wf(),
        ensures
            final(self).output.wf(),
            final(self).output.limit() == old(self).output.limit(),
            after_event(*old(self), *final(self), *event),
    {
        match event {
            Event::Stopped(body) => {
                self.state = SessionState::Stopped;
                self.stopped_thread = body.thread_id;
                self.stopped_reason = Some(body.reason.clone());
                self.hit_breakpoints = vstd::slice::slice_to_vec(body.hit_breakpoint_ids.as_slice());
                self.current_frame = None;
            },
            Event::Continued { .. } => {
                self.state = SessionState::Running;
                self.stopped_thread = None;
                self.stopped_reason = None;
                self.hit_breakpoints.clear();
                self.current_frame = None;
            },
            Event::Exited(body) => {
                self.state = SessionState::Exited;
                self.exit_code = Some(body.exit_code);
            },
            Event::Terminated(_) => {
                self.state = SessionState::Exited;
            },
            Event::Output(body) => {
                let category = match &body.category {
                    Some(c) => c.clone(),
                    None => String::from_str("console"),
                };
                self.output.push(category, body.output.clone());
            },
            _ => {},
        }
    }

    /// Whether the program can be inspected now.
    pub fn ensure_stopped(&self) -> (r: Result<(), Error>)
        ensures
            inspect_allowed(self.state, self.exit_code, r),
    {
        match self.state {
            SessionState::Stopped => Ok(()),
            SessionState::Exited => Err(Error::ProgramExited(
                match self.exit_code {
                    Some(c) => c,
                    None => 0,
                },
            )),
            _ => Err(Error::invalid_state("inspect", self.state.as_str())),
        }
    }

    /// Whether the program can be paused now: only while it runs.
    pub fn check_pause(&self) -> (r: Result<(), Error>)
        ensures
            self.state == SessionState::Running ==> r is Ok,
            self.state != SessionState::Running ==> (r matches Err(Error::InvalidState { action, state })
                && action@ == "pause"@ && state@ == state_name(self.state)),
    {
        if self.state != SessionState::Running {
            return Err(Error::invalid_state("pause", self.state.as_str()));
        }
        Ok(())
    }

    /// The thread a request that resumes execution (continue, next, step)
    /// goes to: only a stopped program is resumed; then the stopped thread,
    /// else the first known thread.
    pub open spec fn resume_target_spec(self, threads: Seq<Thread>) -> Option<i64> {
        if self.state != SessionState::Stopped {
            None
        } else {
            match self.stopped_thread {
                Some(t) => Some(t),
                None => if threads.len() > 0 {
                    Some(threads[0].id)
                } else {
                    None
                },
            }
        }
    }

    /// Where a request that resumes execution goes, or why there is none:
    /// the program is not stopped, or no thread is known.
    pub fn resume_target(&self, threads: &[Thread]) -> (r: Result<i64, Error>)
        ensures
            r is Ok <==> self.resume_target_spec(threads@) is Some,
            r matches Ok(t) ==> self.resume_target_spec(threads@) == Some(t),
            self.state != SessionState::Stopped ==> (r matches Err(e) && inspect_allowed(
                self.state,
                self.exit_code,
                Err(e),
            )),
            self.state == SessionState::Stopped && self.stopped_thread is None && threads@.len() == 0 ==> (r matches Err(
                Error::Internal(m),
            ) && m@ == "No threads available"@),
    {
        match self.ensure_stopped() {
            Ok(()) => pick_thread(self.stopped_thread, threads),
            Err(e) => Err(e),
        }
    }

    /// After a continue request: running, with no stop.
    pub fn mark_continued(&mut self)
        ensures
            continued(*old(self), *final(self)),
    {
        self.state = SessionState::Running;
        self.stopped_thread = None;
        self.stopped_reason = None;
    }

    /// After a step request: running.
    pub fn mark_running(&mut self)
        ensures
            final(self).state == SessionState::Running,
            final(self).stopped_thread == old(self).stopped_thread,
            opt_text(final(self).stopped_reason) == opt_text(old(self).stopped_reason),
            final(self).hit_breakpoints@ == old(self).hit_breakpoints@,
            final(self).current_frame == old(self).current_frame,
            final(self).exit_code == old(self).exit_code,
            final(self).output == old(self).output,
    {
        self.state = SessionState::Running;
    }

    /// After detach or stop: terminating.
    pub fn mark_terminating(&mut self)
        ensures
            final(self).state == SessionState::Terminating,
            final(self).stopped_thread == old(self).stopped_thread,
            opt_text(final(self).stopped_reason) == opt_text(old(self).stopped_reason),
            final(self).hit_breakpoints@ == old(self).hit_breakpoints@,
            final(self).current_frame == old(self).current_frame,
            final(self).exit_code == old(self).exit_code,
            final(self).output == old(self).output,
    {
        self.state = SessionState::Terminating;
    }

    /// After choosing a thread: requests go to it, from its innermost frame.
    pub fn select_thread(&mut self, id: i64)
        ensures
            final(self).stopped_thread == Some(id),
            final(self).current_frame is None,
            final(self).state == old(self).state,
            opt_text(final(self).stopped_reason) == opt_text(old(self).stopped_reason),
            final(self).hit_breakpoints@ == old(self).hit_breakpoints@,
            final(self).exit_code == old(self).exit_code,
            final(self).output == old(self).output,
    {
        self.stopped_thread = Some(id);
        self.current_frame = None;
    }

    /// After choosing a frame: inspection happens in it.
    pub fn select_frame(&mut self, frame_id: i64)
        ensures
            final(self).current_frame == Some(frame_id),
            final(self).stopped_thread == old(self).stopped_thread,
            final(self).state == old(self).state,
            opt_text(final(self).stopped_reason) == opt_text(old(self).stopped_reason),
            final(self).hit_breakpoints@ == old(self).hit_breakpoints@,
            final(self).exit_code == old(self).exit_code,
            final(self).output == old(self).output,
    {
        self.current_frame = Some(frame_id);
    }
}

/// After a stop event the program can be inspected; after an exit event
/// inspecting gives the exit code; after a continued event it is refused as
/// invalid while running.
pub proof fn law_stop_then_inspect(old: SessionCore, new: SessionCore, event: Event, r: Result<(), Error>)
    requires
        after_event(old, new, event),
        inspect_allowed(new.state, new.exit_code, r),
    ensures
        event is Stopped ==> r is Ok,
        event matches Event::Exited(b) ==> r == Err::<(), Error>(Error::ProgramExited(b.exit_code)),
        event is Continued ==> (r matches Err(Error::InvalidState { action, state }) && state@ == "running"@),
{
}

/// The arguments of a launch request for an adapter kind: debugpy gets its
/// own options (only user code, captured output, the internal console);
/// the others get the program, its arguments, the directory and the
/// stop-on-entry flag alone.
pub open spec fn launch_args_for(
    adapter_type: AdapterType,
    program: Seq<char>,
    args: Seq<Seq<char>>,
    cwd: Option<Seq<char>>,
    stop_on_entry: bool,
    r: LaunchArguments,
) -> bool {
    &&& r.program@ == program
    &&& r.args@.map_values(|a: String| a@) == args
    &&& opt_text(r.cwd) == cwd
    &&& r.env is None
    &&& r.stop_on_entry == stop_on_entry
    &&& r.init_commands is None
    &&& r.pre_run_commands is None
    &&& r.request is None
    &&& r.python is None
    &&& r.module is None
    &&& if adapter_type == AdapterType::Debugpy {
        &&& r.just_my_code == Some(true)
        &&& r.redirect_output == Some(true)
        &&& opt_text(r.console) == Some("internalConsole"@)
    } else {
        &&& r.just_my_code is None
        &&& r.redirect_output is None
        &&& r.console is None
    }
}

/// Copies of strings.
fn copy_strings(v: &[String]) -> (r: Vec<String>)
    ensures
        r@.map_values(|a: String| a@) == v@.map_values(|a: String| a@),
{
    let mut out: Vec<String> = Vec::new();
    let mut k: usize = 0;
    while k < v.len()
        invariant
            k <= v@.len(),
            out@.map_values(|a: String| a@) == v@.take(k as int).map_values(|a: String| a@),
        decreases v@.len() - k,
    {
        let a = v[k].clone();
        proof {
            assert(out@.push(a).map_values(|a: String| a@) =~= out@.map_values(|a: String| a@).push(a@));
            assert(v@.take(k + 1).map_values(|a: String| a@) =~= v@.take(k as int).map_values(|a: String| a@).push(
                v@[k as int]@,
            ));
        }
        out.push(a);
        k = k + 1;
    }
    proof {
        assert(v@.take(v@.len() as int) =~= v@);
    }
    out
}

/// The launch request's arguments for an adapter kind.
pub fn build_launch_args(
    adapter_type: &AdapterType,
    program: &str,
    args: &[String],
    cwd: Option<String>,
    stop_on_entry: bool,
) -> (r: LaunchArguments)
    ensures
        launch_args_for(*adapter_type, program@, args@.map_values(|a: String| a@), opt_text(cwd), stop_on_entry, r),
{
    let debugpy = match adapter_type {
        AdapterType::Debugpy => true,
        _ => false,
    };
    LaunchArguments {
        program: String::from_str(program),
        args: copy_strings(args),
        cwd,
        env: None,
        stop_on_entry,
        init_commands: None,
        pre_run_commands: None,
        request: None,
        console: if debugpy {
            Some(String::from_str("internalConsole"))
        } else {
            None
        },
        python: None,
        module: None,
        just_my_code: if debugpy {
            Some(true)
        } else {
            None
        },
        redirect_output: if debugpy {
            Some(true)
        } else {
            None
        },
    }
}

/// What a session's core holds once a continue request was acknowledged:
/// running, with no stop recorded, and the rest as it was.
pub open spec fn continued(before: SessionCore, after: SessionCore) -> bool {
    &&& after.state == SessionState::Running
    &&& after.stopped_thread is None
    &&& after.stopped_reason is None
    &&& after.hit_breakpoints@ == before.hit_breakpoints@
    &&& after.current_frame == before.current_frame
    &&& after.exit_code == before.exit_code
    &&& after.output == before.output
}

/// Execution is continued only from a stopped program: a continue request
/// has a target only while the program is stopped, the target is the
/// stopped thread when there is one, and once the request is acknowledged
/// the program is running with no stop recorded. Continuing again before
/// another stop has no target.
pub proof fn law_continue_only_when_stopped(before: SessionCore, threads: Seq<Thread>, after: SessionCore)
    requires
        continued(before, after),
    ensures
        before.resume_target_spec(threads) is Some ==> before.state == SessionState::Stopped,
        before.state == SessionState::Stopped ==> (before.stopped_thread matches Some(t) ==> before.resume_target_spec(
            threads,
        ) == Some(t)),
        after.resume_target_spec(threads) is None,
        after.stopped_thread is None && after.stopped_reason is None,
{
}

/// The thread that execution requests go to: the stopped one, else the
/// first known thread.
pub fn pick_thread(stopped_thread: Option<i64>, threads: &[Thread]) -> (r: Result<i64, Error>)
    ensures
        match stopped_thread {
            Some(t) => r == Ok::<i64, Error>(t),
            None => if threads@.len() > 0 {
                r == Ok::<i64, Error>(threads@[0].id)
            } else {
                r matches Err(Error::Internal(m)) && m@ == "No threads available"@
            },
        },
{
    match stopped_thread {
        Some(t) => Ok(t),
        None => if threads.len() > 0 {
            Ok(threads[0].id)
        } else {
            Err(Error::Internal(String::from_str("No threads available")))
        },
    }
}

/// A move through the stack frames.
#[derive(Debug, Clone, Copy, PartialEq, Eq, Structural)]
pub enum FrameMove {
    /// To the frame with this number (0 is the innermost).
    To(usize),
    /// To the caller of the current frame.
    Up,
    /// To the frame the current one called.
    Down,
}

/// The frame number a move leads to from frame `current`, or the number of
/// a frame that cannot exist.
pub open spec fn frame_target_spec(current: usize, m: FrameMove) -> Result<usize, Error> {
    match m {
        FrameMove::To(n) => Ok(n),
        FrameMove::Up => if current < usize::MAX {
            Ok((current + 1) as usize)
        } else {
            Err(Error::FrameNotFound(current))
        },
        FrameMove::Down => if current > 0 {
            Ok((current - 1) as usize)
        } else {
            Err(Error::FrameNotFound(0))
        },
    }
}

/// The frame number a move leads to from frame `current`: up is one
/// further from the innermost frame, down one closer; there is nothing
/// below the innermost frame.
pub fn frame_target(current: usize, m: FrameMove) -> (r: Result<usize, Error>)
    ensures
        r == frame_target_spec(current, m),
{
    match m {
        FrameMove::To(n) => Ok(n),
        FrameMove::Up => if current < usize::MAX {
            Ok(current + 1)
        } else {
            Err(Error::FrameNotFound(current))
        },
        FrameMove::Down => if current > 0 {
            Ok(current - 1)
        } else {
            Err(Error::FrameNotFound(0))
        },
    }
}

/// Whether frame `number` is among the `available` frames of the stack.
pub fn check_frame(number: usize, available: usize) -> (r: Result<(), Error>)
    ensures
        number < available ==> r is Ok,
        number >= available ==> r == Err::<(), Error>(Error::FrameNotFound(number)),
{
    if number < available {
        Ok(())
    } else {
        Err(Error::FrameNotFound(number))
    }
}

/// Moving up a frame and then down again comes back to the same frame, and
/// so does moving down and then up from any frame but the innermost.
pub proof fn law_frame_up_down(current: usize)
    ensures
        current < usize::MAX ==> (frame_target_spec(current, FrameMove::Up) matches Ok(u) && frame_target_spec(
            u,
            FrameMove::Down,
        ) == Ok::<usize, Error>(current)),
        current > 0 ==> (frame_target_spec(current, FrameMove::Down) matches Ok(d) && frame_target_spec(
            d,
            FrameMove::Up,
        ) == Ok::<usize, Error>(current)),
{
}

/// Selecting frame `n` leads to frame `n` whatever the current frame is:
/// selection never fails and does not depend on where the user stands.
pub proof fn law_frame_select(current: usize, other: usize, n: usize)
    ensures
        frame_target_spec(current, FrameMove::To(n)) == Ok::<usize, Error>(n),
        frame_target_spec(current, FrameMove::To(n)) == frame_target_spec(other, FrameMove::To(n)),
{
}

/// The index of the first scope named `Locals` or `Local`, from `k` on.
pub open spec fn locals_index(scopes: Seq<Scope>, k: int) -> Option<int>
    decreases scopes.len() - k,
{
    if k < 0 || k >= scopes.len() {
        None
    } else if scopes[k].name@ == "Locals"@ || scopes[k].name@ == "Local"@ {
        Some(k)
    } else {
        locals_index(scopes, k + 1)
    }
}

/// The scope that holds the local variables: the one named `Locals` or
/// `Local`, else the first scope, else none.
pub fn locals_scope(scopes: &[Scope]) -> (r: Option<usize>)
    ensures
        match locals_index(scopes@, 0) {
            Some(k) => r == Some(k as usize),
            None => if scopes@.len() > 0 {
                r == Some(0usize)
            } else {
                r is None
            },
        },
{
    let mut k: usize = 0;
    while k < scopes.len()
        invariant
            k <= scopes@.len(),
            locals_index(scopes@, 0) == locals_index(scopes@, k as int),
        decreases scopes@.len() - k,
    {
        let name = crate::text::chars_of(scopes[k].name.as_str());
        if crate::text::eq_str(name.as_slice(), "Locals") || crate::text::eq_str(name.as_slice(), "Local") {
            return Some(k);
        }
        k = k + 1;
    }
    if scopes.len() > 0 {
        Some(0)
    } else {
        None
    }
}

/// Whether memory can be read: the adapter must support it.
pub fn check_memory_read(supported: bool) -> (r: Result<(), Error>)
    ensures
        supported ==> r is Ok,
        !supported ==> (r matches Err(Error::NotSupported(m)) && m@ == "Memory read is not supported by this adapter"@),
{
    if supported {
        Ok(())
    } else {
        Err(Error::NotSupported(String::from_str("Memory read is not supported by this adapter")))
    }
}

/// What decoding text as standard base64 (with padding) gives: the bytes,
/// or the decoder's error text.
pub uninterp spec fn base64_standard_decode(text: Seq<char>) -> Result<Seq<u8>, Seq<char>>;

/// Decodes standard base64 with the `base64` crate's `STANDARD` engine
/// (`Engine::decode`); the result is named by `base64_standard_decode`, and
/// an error is given by its text.
#[verifier::external_body]
fn decode_base64(text: &str) -> (r: Result<Vec<u8>, String>)
    ensures
        match r {
            Ok(v) => base64_standard_decode(text@) == Ok::<Seq<u8>, Seq<char>>(v@),
            Err(m) => base64_standard_decode(text@) == Err::<Seq<u8>, Seq<char>>(m@),
        },
{
    match base64::Engine::decode(&base64::engine::general_purpose::STANDARD, text) {
        Ok(v) => Ok(v),
        Err(e) => Err(e.to_string()),
    }
}

/// The result of a memory read from the address and the decoded data (no
/// data reads as no bytes); a decoding failure is an internal error.
pub fn memory_result(address: String, decoded: Option<Result<Vec<u8>, String>>) -> (r: Result<MemoryReadResult, Error>)
    ensures
        match decoded {
            None => (r matches Ok(m) && m.address == address && m.data@.len() == 0 && m.bytes_read == 0),
            Some(Ok(v)) => (r matches Ok(m) && m.address == address && m.data@ == v@ && m.bytes_read == v@.len()),
            Some(Err(e)) => (r matches Err(Error::Internal(t)) && t@ == "Failed to decode memory data: "@ + e@),
        },
{
    match decoded {
        None => Ok(MemoryReadResult { address, bytes_read: 0, data: Vec::new() }),
        Some(Ok(v)) => {
            let n = v.len();
            Ok(MemoryReadResult { address, bytes_read: n, data: v })
        },
        Some(Err(e)) => {
            let ec = crate::text::chars_of(e.as_str());
            proof {
                crate::common::error::lemma_empty_suffix();
            }
            Err(Error::Internal(crate::common::error::text3("Failed to decode memory data: ", ec.as_slice(), "")))
        },
    }
}

/// The result of a memory read from the adapter's answer: the address and
/// the base64 data, decoded.
pub fn read_memory_result(address: String, data: Option<String>) -> (r: Result<MemoryReadResult, Error>)
    ensures
        match data {
            None => (r matches Ok(m) && m.address == address && m.data@.len() == 0 && m.bytes_read == 0),
            Some(d) => match base64_standard_decode(d@) {
                Ok(v) => (r matches Ok(m) && m.address == address && m.data@ == v && m.bytes_read == v.len()),
                Err(e) => (r matches Err(Error::Internal(t)) && t@ == "Failed to decode memory data: "@ + e),
            },
        },
{
    let decoded = match &data {
        Some(d) => Some(decode_base64(d.as_str())),
        None => None,
    };
    memory_result(address, decoded)
}

} // verus!
