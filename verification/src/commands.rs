//! The command line's commands, and what each sends to the daemon and says
//! when it succeeded.

use crate::common::Error;
use crate::ipc::protocol::{BreakpointLocation, Command, EvaluateContext};
use vstd::prelude::*;

verus! {

/// The command line's commands.
#[derive(Debug)]
pub enum Commands {
    /// Start debugging a program.
    Start { program: String, args: Vec<String>, adapter: Option<String>, stop_on_entry: bool, initial_breakpoints: Vec<String> },
    /// Attach to a running process.
    Attach { pid: u32, adapter: Option<String> },
    /// Manage breakpoints.
    Breakpoint(BreakpointCommands),
    /// Add a breakpoint (short form).
    Break { location: String, condition: Option<String> },
    /// Continue.
    Continue,
    /// Step over.
    Next,
    /// Step into.
    Step,
    /// Step out.
    Finish,
    /// Pause.
    Pause,
    /// Show the stack.
    Backtrace { limit: usize, locals: bool },
    /// Show the local variables.
    Locals,
    /// Print an expression.
    Print { expression: String },
    /// Evaluate an expression with side effects.
    Eval { expression: String },
    /// Show the source around the current line.
    Context { lines: usize },
    /// List threads.
    Threads,
    /// Switch thread, or show the current one.
    Thread { id: Option<i64> },
    /// Switch frame, or show the current one.
    Frame { number: Option<usize> },
    /// Go up a frame.
    Up,
    /// Go down a frame.
    Down,
    /// Wait for the program to stop.
    Await { timeout: u64 },
    /// Show the program's output.
    Output { follow: bool, tail: Option<usize>, clear: bool },
    /// Show the session's status.
    Status,
    /// Stop the session.
    Stop,
    /// Detach from the process.
    Detach,
    /// Restart the program.
    Restart,
    /// Show the daemon's log.
    Logs { lines: usize, follow: bool, clear: bool },
    /// Run as the daemon.
    Daemon,
    /// Install debug adapters.
    Setup {
        debugger: Option<String>,
        version: Option<String>,
        list: bool,
        check: bool,
        auto_detect: bool,
        uninstall: bool,
        path: bool,
        force: bool,
        dry_run: bool,
        json: bool,
    },
    /// Run a test scenario.
    Test { path: String, verbose: bool },
}

/// The breakpoint subcommands.
#[derive(Debug)]
pub enum BreakpointCommands {
    Add { location: String, condition: Option<String>, hit_count: Option<u32> },
    Remove { id: Option<u32>, all: bool },
    List,
    Enable { id: u32 },
    Disable { id: u32 },
}

/// The view of an optional string.
pub open spec fn opt_text(o: Option<String>) -> Option<Seq<char>> {
    match o {
        Some(s) => Some(s@),
        None => None,
    }
}

/// A copy of an optional string.
fn copy_text(o: &Option<String>) -> (r: Option<String>)
    ensures
        opt_text(r) == opt_text(*o),
{
    match o {
        Some(s) => Some(s.clone()),
        None => None,
    }
}

/// Copies of strings.
fn copy_texts(v: &Vec<String>) -> (r: Vec<String>)
    ensures
        r@.map_values(|a: String| a@) == v@.map_values(|a: String| a@),
{
    let mut out: Vec<String> = Vec::new();
    let mut k: usize = 0;
    while k < v.len()
        invariant
            k <= v@.len(),
            out@.map_values(|a: String| a@) == v@.take(k as int).map_values(|a: String| a@),
        decreases v@.len() - k,
    {
        let a = v[k].clone();
        proof {
            assert(out@.push(a).map_values(|a: String| a@) =~= out@.map_values(|a: String| a@).push(a@));
            assert(v@.take(k + 1).map_values(|a: String| a@) =~= v@.take(k as int).map_values(|a: String| a@).push(
                v@[k as int]@,
            ));
        }
        out.push(a);
        k = k + 1;
    }
    proof {
        assert(v@.take(v@.len() as int) =~= v@);
    }
    out
}

/// The daemon command a command line command sends, as plain values;
/// `None` for commands that send nothing (or nothing this way), an error
/// text for a location that does not parse.
pub open spec fn request_spec(cmd: Commands) -> Result<Option<crate::ipc::protocol::CommandView>, Seq<char>> {
    match cmd {
        Commands::Start { program, args, adapter, stop_on_entry, .. } => Ok(
            Some(
                crate::ipc::protocol::CommandView::Start {
                    program: program@,
                    args: args@.map_values(|a: String| a@),
                    adapter: opt_text(adapter),
                    stop_on_entry,
                },
            ),
        ),
        Commands::Attach { pid, adapter } => Ok(Some(crate::ipc::protocol::CommandView::Attach { pid, adapter: opt_text(adapter) })),
        Commands::Breakpoint(b) => match b {
            BreakpointCommands::Add { location, condition, hit_count } => match crate::ipc::protocol::parse_location_spec(location@) {
                Ok(l) => Ok(Some(crate::ipc::protocol::CommandView::BreakpointAdd { location: l, condition: opt_text(condition), hit_count })),
                Err(m) => Err(m),
            },
            BreakpointCommands::Remove { id, all } => Ok(Some(crate::ipc::protocol::CommandView::BreakpointRemove { id, all })),
            BreakpointCommands::List => Ok(Some(crate::ipc::protocol::CommandView::BreakpointList)),
            BreakpointCommands::Enable { id } => Ok(Some(crate::ipc::protocol::CommandView::BreakpointEnable { id })),
            BreakpointCommands::Disable { id } => Ok(Some(crate::ipc::protocol::CommandView::BreakpointDisable { id })),
        },
        Commands::Break { location, condition } => match crate::ipc::protocol::parse_location_spec(location@) {
            Ok(l) => Ok(Some(crate::ipc::protocol::CommandView::BreakpointAdd { location: l, condition: opt_text(condition), hit_count: None })),
            Err(m) => Err(m),
        },
        Commands::Continue => Ok(Some(crate::ipc::protocol::CommandView::Continue)),
        Commands::Next => Ok(Some(crate::ipc::protocol::CommandView::Next)),
        Commands::Step => Ok(Some(crate::ipc::protocol::CommandView::StepIn)),
        Commands::Finish => Ok(Some(crate::ipc::protocol::CommandView::StepOut)),
        Commands::Pause => Ok(Some(crate::ipc::protocol::CommandView::Pause)),
        Commands::Backtrace { limit, .. } => Ok(Some(crate::ipc::protocol::CommandView::StackTrace { thread_id: None, limit })),
        Commands::Locals => Ok(Some(crate::ipc::protocol::CommandView::Locals { frame_id: None })),
        Commands::Print { expression } => Ok(Some(crate::ipc::protocol::CommandView::Evaluate { expression: expression@, frame_id: None, context: EvaluateContext::Watch })),
        Commands::Eval { expression } => Ok(Some(crate::ipc::protocol::CommandView::Evaluate { expression: expression@, frame_id: None, context: EvaluateContext::Repl })),
        Commands::Context { lines } => Ok(Some(crate::ipc::protocol::CommandView::Context { lines })),
        Commands::Threads => Ok(Some(crate::ipc::protocol::CommandView::Threads)),
        Commands::Thread { id } => match id {
            Some(i) => Ok(Some(crate::ipc::protocol::CommandView::ThreadSelect { id: i })),
            None => Ok(Some(crate::ipc::protocol::CommandView::Status)),
        },
        Commands::Frame { number } => match number {
            Some(n) => Ok(Some(crate::ipc::protocol::CommandView::FrameSelect { number: n })),
            None => Ok(None),
        },
        Commands::Up => Ok(Some(crate::ipc::protocol::CommandView::FrameUp)),
        Commands::Down => Ok(Some(crate::ipc::protocol::CommandView::FrameDown)),
        Commands::Await { timeout } => Ok(Some(crate::ipc::protocol::CommandView::Await { timeout_secs: timeout })),
        Commands::Output { follow, tail, clear } => if follow {
            Ok(None)
        } else {
            Ok(Some(crate::ipc::protocol::CommandView::GetOutput { tail, clear }))
        },
        Commands::Status => Ok(Some(crate::ipc::protocol::CommandView::Status)),
        Commands::Stop => Ok(Some(crate::ipc::protocol::CommandView::Stop)),
        Commands::Detach => Ok(Some(crate::ipc::protocol::CommandView::Detach)),
        Commands::Restart => Ok(Some(crate::ipc::protocol::CommandView::Restart)),
        _ => Ok(None),
    }
}

/// A location's command, or its error.
fn add_request(location: &String, condition: &Option<String>, hit_count: Option<u32>) -> (r: Result<Option<Command>, Error>)
    ensures
        match crate::ipc::protocol::parse_location_spec(location@) {
            Ok(l) => (r matches Ok(Some(c)) && c@ == crate::ipc::protocol::CommandView::BreakpointAdd {
                location: l,
                condition: opt_text(*condition),
                hit_count,
            }),
            Err(m) => (r matches Err(Error::InvalidLocation(t)) && t@ == m),
        },
{
    match BreakpointLocation::parse(location.as_str()) {
        Ok(loc) => Ok(Some(Command::BreakpointAdd { location: loc, condition: copy_text(condition), hit_count })),
        Err(e) => Err(e),
    }
}

/// The daemon command a command line command sends (`None` when it sends
/// none this way); a breakpoint location that does not parse is an error.
pub fn request_for(cmd: &Commands) -> (r: Result<Option<Command>, Error>)
    ensures
        match request_spec(*cmd) {
            Ok(Some(v)) => (r matches Ok(Some(c)) && c@ == v),
            Ok(None) => (r matches Ok(None)),
            Err(m) => (r matches Err(Error::InvalidLocation(t)) && t@ == m),
        },
{
    match cmd {
        Commands::Start { program, args, adapter, stop_on_entry, .. } => Ok(
            Some(
                Command::Start {
                    program: program.clone(),
                    args: copy_texts(args),
                    adapter: copy_text(adapter),
                    stop_on_entry: *stop_on_entry,
                },
            ),
        ),
        Commands::Attach { pid, adapter } => Ok(Some(Command::Attach { pid: *pid, adapter: copy_text(adapter) })),
        Commands::Breakpoint(b) => match b {
            BreakpointCommands::Add { location, condition, hit_count } => add_request(location, condition, *hit_count),
            BreakpointCommands::Remove { id, all } => Ok(Some(Command::BreakpointRemove { id: *id, all: *all })),
            BreakpointCommands::List => Ok(Some(Command::BreakpointList)),
            BreakpointCommands::Enable { id } => Ok(Some(Command::BreakpointEnable { id: *id })),
            BreakpointCommands::Disable { id } => Ok(Some(Command::BreakpointDisable { id: *id })),
        },
        Commands::Break { location, condition } => add_request(location, condition, None),
        Commands::Continue => Ok(Some(Command::Continue)),
        Commands::Next => Ok(Some(Command::Next)),
        Commands::Step => Ok(Some(Command::StepIn)),
        Commands::Finish => Ok(Some(Command::StepOut)),
        Commands::Pause => Ok(Some(Command::Pause)),
        Commands::Backtrace { limit, .. } => Ok(Some(Command::StackTrace { thread_id: None, limit: *limit })),
        Commands::Locals => Ok(Some(Command::Locals { frame_id: None })),
        Commands::Print { expression } => Ok(
            Some(Command::Evaluate { expression: expression.clone(), frame_id: None, context: EvaluateContext::Watch }),
        ),
        Commands::Eval { expression } => Ok(
            Some(Command::Evaluate { expression: expression.clone(), frame_id: None, context: EvaluateContext::Repl }),
        ),
        Commands::Context { lines } => Ok(Some(Command::Context { lines: *lines })),
        Commands::Threads => Ok(Some(Command::Threads)),
        Commands::Thread { id } => match id {
            Some(i) => Ok(Some(Command::ThreadSelect { id: *i })),
            None => Ok(Some(Command::Status)),
        },
        Commands::Frame { number } => match number {
            Some(n) => Ok(Some(Command::FrameSelect { number: *n })),
            None => Ok(None),
        },
        Commands::Up => Ok(Some(Command::FrameUp)),
        Commands::Down => Ok(Some(Command::FrameDown)),
        Commands::Await { timeout } => Ok(Some(Command::Await { timeout_secs: *timeout })),
        Commands::Output { follow, tail, clear } => if *follow {
            Ok(None)
        } else {
            Ok(Some(Command::GetOutput { tail: *tail, clear: *clear }))
        },
        Commands::Status => Ok(Some(Command::Status)),
        Commands::Stop => Ok(Some(Command::Stop)),
        Commands::Detach => Ok(Some(Command::Detach)),
        Commands::Restart => Ok(Some(Command::Restart)),
        _ => Ok(None),
    }
}

/// `breakpoint add` sends a request to add a breakpoint at the location the
/// text names, carrying the given condition and hit count unchanged; a
/// location that does not parse is refused with the parser's message.
pub proof fn law_breakpoint_add_request(location: String, condition: Option<String>, hit_count: Option<u32>)
    ensures
        crate::ipc::protocol::parse_location_spec(location@) matches Ok(want) ==> (request_spec(
            Commands::Breakpoint(BreakpointCommands::Add { location, condition, hit_count }),
        ) matches Ok(Some(crate::ipc::protocol::CommandView::BreakpointAdd { location: l, condition: c, hit_count: h }))
            && l == want && h == hit_count && (condition matches Some(t) ==> c == Some(t@)) && (condition is None
            ==> c is None)),
        crate::ipc::protocol::parse_location_spec(location@) matches Err(m) ==> request_spec(
            Commands::Breakpoint(BreakpointCommands::Add { location, condition, hit_count }),
        ) == Err::<Option<crate::ipc::protocol::CommandView>, Seq<char>>(m),
{
}

/// `break` sends a request to add a breakpoint that carries the condition
/// given on the command line unchanged, with no hit count, at the location
/// the text names; it asks for the same breakpoint as `breakpoint add` with
/// that location and condition and no hit count.
pub proof fn law_break_keeps_condition(location: String, condition: Option<String>)
    requires
        crate::ipc::protocol::parse_location_spec(location@) is Ok,
    ensures
        request_spec(Commands::Break { location, condition }) matches Ok(
            Some(crate::ipc::protocol::CommandView::BreakpointAdd { location: l, condition: c, hit_count: h }),
        ) && l == crate::ipc::protocol::parse_location_spec(location@)->Ok_0 && h is None && (condition matches Some(
            t,
        ) ==> c == Some(t@)) && (condition is None ==> c is None),
        request_spec(Commands::Break { location, condition }) == request_spec(
            Commands::Breakpoint(BreakpointCommands::Add { location, condition, hit_count: None }),
        ),
{
}

/// What a command prints once the daemon accepted it, when that does not
/// depend on the daemon's answer.
pub open spec fn acknowledgement_spec(cmd: Commands) -> Option<Seq<char>> {
    match cmd {
        Commands::Start { program, stop_on_entry, .. } => Some(
            "Started debugging: "@ + program@ + "\n"@ + if stop_on_entry {
                "Stopped at entry point. Use 'debugger continue' to run."@
            } else {
                "Program is running. Use 'debugger await' to wait for a stop."@
            },
        ),
        Commands::Attach { pid, .. } => Some(
            "Attached to process "@ + crate::number::decimal_of(pid as nat) + "\n"@
                + "Program is stopped. Use 'debugger continue' to run."@,
        ),
        Commands::Breakpoint(BreakpointCommands::Remove { id, all }) => if all {
            Some("All breakpoints removed"@)
        } else {
            match id {
                Some(i) => Some("Breakpoint "@ + crate::number::decimal_of(i as nat) + " removed"@),
                None => None,
            }
        },
        Commands::Breakpoint(BreakpointCommands::Enable { id }) => Some(
            "Breakpoint "@ + crate::number::decimal_of(id as nat) + " enabled"@,
        ),
        Commands::Breakpoint(BreakpointCommands::Disable { id }) => Some(
            "Breakpoint "@ + crate::number::decimal_of(id as nat) + " disabled"@,
        ),
        Commands::Continue => Some("Continuing execution..."@),
        Commands::Next => Some("Stepping over..."@),
        Commands::Step => Some("Stepping into..."@),
        Commands::Finish => Some("Stepping out..."@),
        Commands::Pause => Some("Pausing execution..."@),
        Commands::Thread { id: Some(i) } => Some("Switched to thread "@ + crate::number::signed_decimal_of(i as int)),
        Commands::Frame { number: Some(n) } => Some("Switched to frame "@ + crate::number::decimal_of(n as nat)),
        Commands::Frame { number: None } => Some("Current frame: 0 (use 'debugger backtrace' to see all frames)"@),
        Commands::Output { follow: true, .. } => Some("Output streaming not yet implemented"@),
        Commands::Stop => Some("Debug session stopped"@),
        Commands::Detach => Some("Detached from process (process continues running)"@),
        Commands::Restart => Some("Program restarted"@),
        _ => None,
    }
}

/// `a` then the decimal `n` then `c`.
fn with_number(a: &str, n: u64, c: &str) -> (r: String)
    ensures
        r@ == a@ + crate::number::decimal_of(n as nat) + c@,
{
    let d = crate::number::decimal_chars(n);
    crate::common::error::text3(a, d.as_slice(), c)
}

/// What a command prints once the daemon accepted it, when that does not
/// depend on the daemon's answer.
pub fn acknowledgement(cmd: &Commands) -> (r: Option<String>)
    ensures
        match acknowledgement_spec(*cmd) {
            Some(t) => (r matches Some(s) && s@ == t),
            None => r is None,
        },
{
    proof {
        crate::common::error::lemma_empty_suffix();
    }
    match cmd {
        Commands::Start { program, stop_on_entry, .. } => {
            let mut m = crate::text::chars_of("Started debugging: ");
            crate::text::append_str(&mut m, program.as_str());
            crate::text::append_str(&mut m, "\n");
            if *stop_on_entry {
                crate::text::append_str(&mut m, "Stopped at entry point. Use 'debugger continue' to run.");
            } else {
                crate::text::append_str(&mut m, "Program is running. Use 'debugger await' to wait for a stop.");
            }
            Some(crate::text::string_from(m.as_slice()))
        },
        Commands::Attach { pid, .. } => {
            let mut m = crate::text::chars_of("Attached to process ");
            let d = crate::number::decimal_chars(*pid as u64);
            crate::text::append(&mut m, d.as_slice());
            crate::text::append_str(&mut m, "\n");
            crate::text::append_str(&mut m, "Program is stopped. Use 'debugger continue' to run.");
            Some(crate::text::string_from(m.as_slice()))
        },
        Commands::Breakpoint(BreakpointCommands::Remove { id, all }) => if *all {
            Some(String::from_str("All breakpoints removed"))
        } else {
            match id {
                Some(i) => Some(with_number("Breakpoint ", *i as u64, " removed")),
                None => None,
            }
        },
        Commands::Breakpoint(BreakpointCommands::Enable { id }) => Some(with_number("Breakpoint ", *id as u64, " enabled")),
        Commands::Breakpoint(BreakpointCommands::Disable { id }) => Some(with_number("Breakpoint ", *id as u64, " disabled")),
        Commands::Continue => Some(String::from_str("Continuing execution...")),
        Commands::Next => Some(String::from_str("Stepping over...")),
        Commands::Step => Some(String::from_str("Stepping into...")),
        Commands::Finish => Some(String::from_str("Stepping out...")),
        Commands::Pause => Some(String::from_str("Pausing execution...")),
        Commands::Thread { id: Some(i) } => {
            let d = crate::number::signed_decimal_chars(*i);
            Some(crate::common::error::text3("Switched to thread ", d.as_slice(), ""))
        },
        Commands::Frame { number: Some(n) } => Some(with_number("Switched to frame ", *n as u64, "")),
        Commands::Frame { number: None } => Some(String::from_str("Current frame: 0 (use 'debugger backtrace' to see all frames)")),
        Commands::Output { follow: true, .. } => Some(String::from_str("Output streaming not yet implemented")),
        Commands::Stop => Some(String::from_str("Debug session stopped")),
        Commands::Detach => Some(String::from_str("Detached from process (process continues running)")),
        Commands::Restart => Some(String::from_str("Program restarted")),
        _ => None,
    }
}

} // verus!
