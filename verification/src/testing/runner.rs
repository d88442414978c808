//! The test runner's decisions: turning a scenario's command text into a
//! daemon command, and checking what the daemon answered against a step's
//! expectations.

use crate::common::Error;
use crate::ipc::protocol::{BreakpointLocation, Command, EvaluateContext};
use vstd::prelude::*;

verus! {

/// The outcome of one scenario run.
#[derive(Debug)]
pub struct TestResult {
    pub name: String,
    pub passed: bool,
    pub steps_run: usize,
    pub steps_total: usize,
    pub error: Option<String>,
}

/// How `{:?}` writes an optional exit code.
pub open spec fn exit_code_text(code: Option<i32>) -> Seq<char> {
    match code {
        Some(c) => "Some("@ + crate::number::signed_decimal_of(c as int) + ")"@,
        None => "None"@,
    }
}

/// The outcome of a scenario whose setup command failed: nothing run.
pub fn setup_failure(name: String, steps_total: usize, shell: &str, exit_code: Option<i32>) -> (r: TestResult)
    ensures
        r.name == name,
        !r.passed,
        r.steps_run == 0,
        r.steps_total == steps_total,
        r.error matches Some(e) && e@ == "Setup command '"@ + shell@ + "' failed with exit code "@
            + exit_code_text(exit_code),
{
    let mut m = crate::text::chars_of("Setup command '");
    crate::text::append_str(&mut m, shell);
    crate::text::append_str(&mut m, "' failed with exit code ");
    match exit_code {
        Some(c) => {
            crate::text::append_str(&mut m, "Some(");
            let d = crate::number::signed_decimal_chars(c as i64);
            crate::text::append(&mut m, d.as_slice());
            crate::text::append_str(&mut m, ")");
        },
        None => crate::text::append_str(&mut m, "None"),
    }
    TestResult { name, passed: false, steps_run: 0, steps_total, error: Some(crate::text::string_from(m.as_slice())) }
}

/// The outcome of a scenario that stopped at step `step` (counted from 1)
/// with an error: the steps run are those up to and including it.
pub fn step_failure(name: String, step: usize, steps_total: usize, error: String) -> (r: TestResult)
    ensures
        r.name == name,
        !r.passed,
        r.steps_run == step,
        r.steps_total == steps_total,
        r.error == Some(error),
{
    TestResult { name, passed: false, steps_run: step, steps_total, error: Some(error) }
}

/// The outcome of a scenario whose steps all passed.
pub fn scenario_passed(name: String, steps_total: usize) -> (r: TestResult)
    ensures
        r.name == name,
        r.passed,
        r.steps_run == steps_total,
        r.steps_total == steps_total,
        r.error is None,
{
    TestResult { name, passed: true, steps_run: steps_total, steps_total, error: None }
}

/// What a scenario run does next.
pub enum ScenarioNext {
    /// Run the step with this index (counted from 0).
    Run(usize),
    /// Stop the session and report this outcome.
    Finish(TestResult),
}

/// A scenario runner's move as plain values.
pub enum NextView {
    Run(nat),
    Finish { passed: bool, steps_run: nat, error: Option<Seq<char>> },
}

/// The plain form of a runner's move.
pub open spec fn next_view_of(n: ScenarioNext) -> NextView {
    match n {
        ScenarioNext::Run(i) => NextView::Run(i as nat),
        ScenarioNext::Finish(t) => NextView::Finish {
            passed: t.passed,
            steps_run: t.steps_run as nat,
            error: match t.error {
                Some(e) => Some(e@),
                None => None,
            },
        },
    }
}

/// The plain form of a step's outcome.
pub open spec fn outcome_view(o: Result<(), String>) -> Result<(), Seq<char>> {
    match o {
        Ok(()) => Ok(()),
        Err(e) => Err(e@),
    }
}

/// The runner's move after `done` of `total` steps, the last of them with
/// outcome `last`.
pub open spec fn next_spec(done: nat, total: nat, last: Result<(), Seq<char>>) -> NextView {
    match last {
        Err(e) => NextView::Finish { passed: false, steps_run: done, error: Some(e) },
        Ok(()) => if done < total {
            NextView::Run(done)
        } else {
            NextView::Finish { passed: true, steps_run: total, error: None }
        },
    }
}

/// Where a run ends that goes on from `done` steps, the last with outcome
/// `last`, each further step `i` having outcome `outcomes[i]`.
pub open spec fn run_from(outcomes: Seq<Result<(), Seq<char>>>, done: nat, last: Result<(), Seq<char>>) -> NextView
    decreases outcomes.len() - done,
{
    match next_spec(done, outcomes.len(), last) {
        NextView::Run(i) => if i == done && done < outcomes.len() {
            run_from(outcomes, done + 1, outcomes[done as int])
        } else {
            NextView::Run(i)
        },
        f => f,
    }
}

/// A run over steps with outcomes `outcomes` finished with `v`: it passed
/// exactly when it reports no error; having passed, it ran every step and
/// every step passed; having failed, the steps it ran end with the first
/// failing one, whose error it reports.
pub open spec fn finished_as_reported(outcomes: Seq<Result<(), Seq<char>>>, v: NextView) -> bool {
    match v {
        NextView::Run(_) => false,
        NextView::Finish { passed, steps_run, error } => {
            &&& passed <==> error is None
            &&& steps_run <= outcomes.len()
            &&& passed ==> steps_run == outcomes.len() && forall|i: int|
                0 <= i < outcomes.len() ==> #[trigger] outcomes[i] is Ok
            &&& !passed ==> 1 <= steps_run && outcomes[steps_run - 1] is Err && error == Some(
                outcomes[steps_run - 1]->Err_0,
            ) && forall|i: int| 0 <= i < steps_run - 1 ==> #[trigger] outcomes[i] is Ok
        },
    }
}

proof fn lemma_run_from(outcomes: Seq<Result<(), Seq<char>>>, done: nat, last: Result<(), Seq<char>>)
    requires
        done <= outcomes.len(),
        done == 0 ==> last is Ok,
        done > 0 ==> last == outcomes[done - 1],
        forall|i: int| 0 <= i < done - 1 ==> #[trigger] outcomes[i] is Ok,
    ensures
        finished_as_reported(outcomes, run_from(outcomes, done, last)),
    decreases outcomes.len() - done,
{
    if last is Ok && done < outcomes.len() {
        lemma_run_from(outcomes, done + 1, outcomes[done as int]);
    }
}

/// A scenario run that starts with no step done and goes on with each move
/// of `scenario_next` (running step `i` gives outcome `outcomes[i]`) ends
/// by finishing, and reports as `finished_as_reported` says.
pub proof fn law_scenario_run(outcomes: Seq<Result<(), Seq<char>>>)
    ensures
        finished_as_reported(outcomes, run_from(outcomes, 0, Ok(()))),
{
    lemma_run_from(outcomes, 0, Ok(()));
}

/// The scenario runner's next move after `done` steps, the last of them
/// with outcome `last` (`Ok` before any step): a failed step ends the run
/// with that step's error, counting it as run; otherwise the next step
/// runs, and after the last one the scenario has passed.
pub fn scenario_next(name: &String, done: usize, steps_total: usize, last: Result<(), String>) -> (r: ScenarioNext)
    requires
        done <= steps_total,
    ensures
        next_view_of(r) == next_spec(done as nat, steps_total as nat, outcome_view(last)),
        match last {
            Err(e) => r matches ScenarioNext::Finish(t) && t.name@ == name@ && !t.passed && t.steps_run == done
                && t.steps_total == steps_total && t.error == Some(e),
            Ok(()) => if done < steps_total {
                r matches ScenarioNext::Run(i) && i == done
            } else {
                r matches ScenarioNext::Finish(t) && t.name@ == name@ && t.passed && t.steps_run == steps_total
                    && t.steps_total == steps_total && t.error is None
            },
        },
{
    match last {
        Err(e) => ScenarioNext::Finish(step_failure(name.clone(), done, steps_total, e)),
        Ok(()) => if done < steps_total {
            ScenarioNext::Run(done)
        } else {
            ScenarioNext::Finish(scenario_passed(name.clone(), steps_total))
        },
    }
}

/// Why command text was refused: a configuration error, or a location that
/// does not parse.
pub enum CommandFault {
    Config(Seq<char>),
    Location(Seq<char>),
}

/// `e` is the error that `f` describes.
pub open spec fn is_fault(e: Error, f: CommandFault) -> bool {
    match f {
        CommandFault::Config(m) => (e matches Error::Config(t) && t@ == m),
        CommandFault::Location(m) => (e matches Error::InvalidLocation(t) && t@ == m),
    }
}

/// `r` is the outcome that `s` describes.
pub open spec fn outcome_is(r: Result<Command, Error>, s: Result<crate::ipc::protocol::CommandView, CommandFault>) -> bool {
    match s {
        Ok(v) => (r matches Ok(c) && c@ == v),
        Err(f) => (r matches Err(e) && is_fault(e, f)),
    }
}

/// The view of an optional character vector.
pub open spec fn opt_chars(o: Option<Vec<char>>) -> Option<Seq<char>> {
    match o {
        Some(v) => Some(v@),
        None => None,
    }
}

/// The first index from `j` on whose word starts with `--`, or the end.
pub open spec fn condition_end(args: Seq<Seq<char>>, j: int) -> int
    decreases args.len() - j,
{
    if j < 0 || j >= args.len() || crate::text::has_prefix(args[j], "--"@) {
        j
    } else {
        condition_end(args, j + 1)
    }
}

pub proof fn lemma_condition_end(args: Seq<Seq<char>>, j: int)
    ensures
        j <= condition_end(args, j),
        0 <= j <= args.len() ==> condition_end(args, j) <= args.len(),
    decreases args.len() - j,
{
    if !(j < 0 || j >= args.len() || crate::text::has_prefix(args[j], "--"@)) {
        lemma_condition_end(args, j + 1);
    }
}

/// The location text, condition and hit count that `break` reads from its
/// arguments from index `i` on, given those read so far; or the text of an
/// invalid hit count.
pub open spec fn scan_break(
    args: Seq<Seq<char>>,
    i: int,
    loc: Seq<char>,
    cond: Option<Seq<char>>,
    hit: Option<u32>,
) -> Result<(Seq<char>, Option<Seq<char>>, Option<u32>), Seq<char>>
    decreases args.len() - i,
{
    if i < 0 || i >= args.len() {
        Ok((loc, cond, hit))
    } else if args[i] == "--condition"@ && i + 1 < args.len() {
        let j = condition_end(args, i + 1);
        proof {
            lemma_condition_end(args, i + 1);
        }
        scan_break(
            args,
            j,
            loc,
            Some(crate::text::trim_char(crate::text::joined(args.subrange(i + 1, j), seq![' ']), '"')),
            hit,
        )
    } else if args[i] == "--hit-count"@ && i + 1 < args.len() {
        match crate::number::parse_unsigned(args[i + 1], u32::MAX as nat) {
            Some(n) => scan_break(args, i + 2, loc, cond, Some(n as u32)),
            None => Err("Invalid hit count: "@ + args[i + 1]),
        }
    } else if !crate::text::has_prefix(args[i], "--"@) {
        let l = if loc.len() > 0 { loc.push(' ') } else { loc };
        scan_break(args, i + 1, l + args[i], cond, hit)
    } else {
        scan_break(args, i + 1, loc, cond, hit)
    }
}

/// What `break` (or `b`) with these arguments gives.
pub open spec fn break_result(args: Seq<Seq<char>>) -> Result<crate::ipc::protocol::CommandView, CommandFault> {
    if args.len() == 0 {
        Err(CommandFault::Config("break command requires a location"@))
    } else {
        let start: int = if args[0] == "add"@ && args.len() > 1 { 1 } else { 0 };
        match scan_break(args, start, seq![], None, None) {
            Err(m) => Err(CommandFault::Config(m)),
            Ok((loc, cond, hit)) => match crate::ipc::protocol::parse_location_spec(loc) {
                Ok(l) => Ok(crate::ipc::protocol::CommandView::BreakpointAdd { location: l, condition: cond, hit_count: hit }),
                Err(m) => Err(CommandFault::Location(m)),
            },
        }
    }
}

/// A breakpoint id argument, or the error for one that is not a `u32`.
pub open spec fn id_result(w: Seq<char>) -> Result<u32, CommandFault> {
    match crate::number::parse_unsigned(w, u32::MAX as nat) {
        Some(n) => Ok(n as u32),
        None => Err(CommandFault::Config("Invalid breakpoint ID: "@ + w)),
    }
}

/// What `breakpoint` with these arguments gives.
pub open spec fn breakpoint_result(args: Seq<Seq<char>>) -> Result<crate::ipc::protocol::CommandView, CommandFault> {
    if args.len() == 0 {
        Err(CommandFault::Config("breakpoint command requires a subcommand"@))
    } else if args[0] == "add"@ {
        if args.len() < 2 {
            Err(CommandFault::Config("breakpoint add requires a location"@))
        } else {
            match crate::ipc::protocol::parse_location_spec(args[1]) {
                Ok(l) => Ok(crate::ipc::protocol::CommandView::BreakpointAdd { location: l, condition: None, hit_count: None }),
                Err(m) => Err(CommandFault::Location(m)),
            }
        }
    } else if args[0] == "remove"@ {
        if args.len() < 2 || args[1] == "all"@ || args[1] == "--all"@ {
            Ok(crate::ipc::protocol::CommandView::BreakpointRemove { id: None, all: true })
        } else {
            match id_result(args[1]) {
                Ok(id) => Ok(crate::ipc::protocol::CommandView::BreakpointRemove { id: Some(id), all: false }),
                Err(f) => Err(f),
            }
        }
    } else if args[0] == "list"@ {
        Ok(crate::ipc::protocol::CommandView::BreakpointList)
    } else if args[0] == "enable"@ {
        if args.len() < 2 {
            Err(CommandFault::Config("breakpoint enable requires an ID"@))
        } else {
            match id_result(args[1]) {
                Ok(id) => Ok(crate::ipc::protocol::CommandView::BreakpointEnable { id }),
                Err(f) => Err(f),
            }
        }
    } else if args[0] == "disable"@ {
        if args.len() < 2 {
            Err(CommandFault::Config("breakpoint disable requires an ID"@))
        } else {
            match id_result(args[1]) {
                Ok(id) => Ok(crate::ipc::protocol::CommandView::BreakpointDisable { id }),
                Err(f) => Err(f),
            }
        }
    } else {
        Err(CommandFault::Config("Unknown breakpoint subcommand: "@ + args[0]))
    }
}

/// The `--tail` and `--clear` options that `output` reads from index `i` on.
pub open spec fn scan_output(args: Seq<Seq<char>>, i: int, tail: Option<usize>, clear: bool) -> (Option<usize>, bool)
    decreases args.len() - i,
{
    if i < 0 || i >= args.len() {
        (tail, clear)
    } else if args[i] == "--tail"@ {
        if i + 1 < args.len() {
            let t = match crate::number::parse_unsigned(args[i + 1], usize::MAX as nat) {
                Some(n) => Some(n as usize),
                None => None,
            };
            scan_output(args, i + 2, t, clear)
        } else {
            scan_output(args, i + 1, tail, clear)
        }
    } else if args[i] == "--clear"@ {
        scan_output(args, i + 1, tail, true)
    } else {
        scan_output(args, i + 1, tail, clear)
    }
}

/// What a command word (already lower-cased) and its arguments give.
pub open spec fn command_for(cmd: Seq<char>, args: Seq<Seq<char>>) -> Result<crate::ipc::protocol::CommandView, CommandFault> {
    if cmd == "continue"@ || cmd == "c"@ {
        Ok(crate::ipc::protocol::CommandView::Continue)
    } else if cmd == "next"@ || cmd == "n"@ {
        Ok(crate::ipc::protocol::CommandView::Next)
    } else if cmd == "step"@ || cmd == "s"@ {
        Ok(crate::ipc::protocol::CommandView::StepIn)
    } else if cmd == "finish"@ || cmd == "out"@ {
        Ok(crate::ipc::protocol::CommandView::StepOut)
    } else if cmd == "pause"@ {
        Ok(crate::ipc::protocol::CommandView::Pause)
    } else if cmd == "break"@ || cmd == "b"@ {
        break_result(args)
    } else if cmd == "breakpoint"@ {
        breakpoint_result(args)
    } else if cmd == "locals"@ {
        Ok(crate::ipc::protocol::CommandView::Locals { frame_id: None })
    } else if cmd == "backtrace"@ || cmd == "bt"@ {
        Ok(crate::ipc::protocol::CommandView::StackTrace { thread_id: None, limit: 20 })
    } else if cmd == "threads"@ {
        Ok(crate::ipc::protocol::CommandView::Threads)
    } else if cmd == "thread"@ {
        if args.len() == 0 {
            Err(CommandFault::Config("thread command requires an ID"@))
        } else {
            match crate::number::parse_signed64(args[0]) {
                Some(n) => Ok(crate::ipc::protocol::CommandView::ThreadSelect { id: n as i64 }),
                None => Err(CommandFault::Config("Invalid thread ID: "@ + args[0])),
            }
        }
    } else if cmd == "frame"@ {
        if args.len() == 0 {
            Err(CommandFault::Config("frame command requires a number"@))
        } else {
            match crate::number::parse_unsigned(args[0], usize::MAX as nat) {
                Some(n) => Ok(crate::ipc::protocol::CommandView::FrameSelect { number: n as usize }),
                None => Err(CommandFault::Config("Invalid frame number: "@ + args[0])),
            }
        }
    } else if cmd == "up"@ {
        Ok(crate::ipc::protocol::CommandView::FrameUp)
    } else if cmd == "down"@ {
        Ok(crate::ipc::protocol::CommandView::FrameDown)
    } else if cmd == "print"@ || cmd == "p"@ || cmd == "eval"@ {
        if args.len() == 0 {
            Err(CommandFault::Config("print/eval command requires an expression"@))
        } else {
            Ok(crate::ipc::protocol::CommandView::Evaluate {
                expression: crate::text::joined(args, seq![' ']),
                frame_id: None,
                context: EvaluateContext::Watch,
            })
        }
    } else if cmd == "stop"@ {
        Ok(crate::ipc::protocol::CommandView::Stop)
    } else if cmd == "detach"@ {
        Ok(crate::ipc::protocol::CommandView::Detach)
    } else if cmd == "restart"@ {
        Ok(crate::ipc::protocol::CommandView::Restart)
    } else if cmd == "output"@ {
        let (tail, clear) = scan_output(args, 0, None, false);
        Ok(crate::ipc::protocol::CommandView::GetOutput { tail, clear })
    } else {
        Err(CommandFault::Config("Unknown command: "@ + cmd))
    }
}

/// What a line of command text gives: its first word, lower-cased, chooses
/// the command, and the other words are its arguments.
pub open spec fn parsed_command(s: Seq<char>) -> Result<crate::ipc::protocol::CommandView, CommandFault> {
    let w = crate::text::words(s);
    if w.len() == 0 {
        Err(CommandFault::Config("Empty command"@))
    } else {
        command_for(crate::text::lowercase_of(w[0]), w.drop_first())
    }
}

/// A configuration error whose message is `a` followed by `w`.
fn config_error(a: &str, w: &[char]) -> (e: Error)
    ensures
        e matches Error::Config(t) && t@ == a@ + w@,
{
    proof {
        crate::common::error::lemma_empty_suffix();
    }
    Error::Config(crate::common::error::text3(a, w, ""))
}

/// A configuration error with a fixed message.
fn config_message(a: &str) -> (e: Error)
    ensures
        e matches Error::Config(t) && t@ == a@,
{
    Error::Config(String::from_str(a))
}

/// A breakpoint id argument.
fn parse_id(w: &[char]) -> (r: Result<u32, Error>)
    ensures
        match id_result(w@) {
            Ok(id) => r == Ok::<u32, Error>(id),
            Err(f) => (r matches Err(e) && is_fault(e, f)),
        },
{
    match crate::number::parse_u32(w) {
        Some(id) => Ok(id),
        None => Err(config_error("Invalid breakpoint ID: ", w)),
    }
}

/// Parses a location from its characters.
fn parse_location_chars(w: &[char]) -> (r: Result<BreakpointLocation, Error>)
    ensures
        match crate::ipc::protocol::parse_location_spec(w@) {
            Ok(v) => (r matches Ok(loc) && loc@ == v),
            Err(m) => (r matches Err(Error::InvalidLocation(t)) && t@ == m),
        },
{
    let s = crate::text::string_from(w);
    BreakpointLocation::parse(s.as_str())
}

/// `break [add] <location> [--condition <expr>] [--hit-count <n>]`.
fn parse_break(args: &[Vec<char>]) -> (r: Result<Command, Error>)
    ensures
        outcome_is(r, break_result(crate::text::views(args@))),
{
    let ghost a = crate::text::views(args@);
    if args.len() == 0 {
        return Err(config_message("break command requires a location"));
    }
    let mut i: usize = 0;
    assert(a[0] == args@[0]@);
    if crate::text::eq_str(args[0].as_slice(), "add") && args.len() > 1 {
        i = 1;
    }
    let ghost start: int = i as int;
    let mut loc: Vec<char> = Vec::new();
    let mut cond: Option<Vec<char>> = None;
    let mut hit: Option<u32> = None;
    while i < args.len()
        invariant
            a == crate::text::views(args@),
            a.len() == args@.len(),
            a.len() > 0,
            start == (if a[0] == "add"@ && a.len() > 1 { 1int } else { 0int }),
            i <= args@.len(),
            scan_break(a, start, seq![], None, None) == scan_break(a, i as int, loc@, opt_chars(cond), hit),
        decreases args@.len() - i,
    {
        assert(a[i as int] == args@[i as int]@);
        if crate::text::eq_str(args[i].as_slice(), "--condition") && i + 1 < args.len() {
            let mut j: usize = i + 1;
            proof {
                lemma_condition_end(a, i + 1);
            }
            while j < args.len() && !crate::text::starts_with_str(args[j].as_slice(), "--")
                invariant
                    a == crate::text::views(args@),
                    a.len() == args@.len(),
                    i + 1 <= j <= args@.len(),
                    condition_end(a, i + 1) == condition_end(a, j as int),
                decreases args@.len() - j,
            {
                assert(a[j as int] == args@[j as int]@);
                j = j + 1;
            }
            proof {
                if j < args.len() {
                    assert(a[j as int] == args@[j as int]@);
                }
            }
            let parts = vstd::slice::slice_subrange(args, i + 1, j);
            let mut sep: Vec<char> = Vec::new();
            sep.push(' ');
            let joined = crate::text::join(parts, sep.as_slice());
            let c = crate::text::trim_matches(joined.as_slice(), '"');
            proof {
                assert(crate::text::views(parts@) =~= a.subrange(i + 1, j as int));
                assert(sep@ =~= seq![' ']);
            }
            cond = Some(c);
            i = j;
        } else if crate::text::eq_str(args[i].as_slice(), "--hit-count") && i + 1 < args.len() {
            assert(a[i + 1] == args@[i + 1]@);
            match crate::number::parse_u32(args[i + 1].as_slice()) {
                Some(n) => {
                    hit = Some(n);
                    i = i + 2;
                },
                None => {
                    proof {
                        assert(!(a[i as int] == "--condition"@ && i + 1 < a.len()));
                        assert(scan_break(a, i as int, loc@, opt_chars(cond), hit) == Err::<
                            (Seq<char>, Option<Seq<char>>, Option<u32>),
                            Seq<char>,
                        >("Invalid hit count: "@ + a[i + 1]));
                    }
                    let e = config_error("Invalid hit count: ", args[i + 1].as_slice());
                    return Err(e);
                },
            }
        } else if !crate::text::starts_with_str(args[i].as_slice(), "--") {
            if loc.len() > 0 {
                loc.push(' ');
            }
            crate::text::append(&mut loc, args[i].as_slice());
            i = i + 1;
        } else {
            i = i + 1;
        }
    }
    match parse_location_chars(loc.as_slice()) {
        Ok(location) => Ok(Command::BreakpointAdd { location, condition: match cond {
            Some(c) => Some(crate::text::string_from(c.as_slice())),
            None => None,
        }, hit_count: hit }),
        Err(e) => Err(e),
    }
}

/// `breakpoint add|remove|list|enable|disable ...`.
fn parse_breakpoint(args: &[Vec<char>]) -> (r: Result<Command, Error>)
    ensures
        outcome_is(r, breakpoint_result(crate::text::views(args@))),
{
    let ghost a = crate::text::views(args@);
    if args.len() == 0 {
        return Err(config_message("breakpoint command requires a subcommand"));
    }
    assert(a[0] == args@[0]@);
    if args.len() > 1 {
        assert(a[1] == args@[1]@);
    }
    let sub = args[0].as_slice();
    if crate::text::eq_str(sub, "add") {
        if args.len() < 2 {
            return Err(config_message("breakpoint add requires a location"));
        }
        match parse_location_chars(args[1].as_slice()) {
            Ok(location) => Ok(Command::BreakpointAdd { location, condition: None, hit_count: None }),
            Err(e) => Err(e),
        }
    } else if crate::text::eq_str(sub, "remove") {
        if args.len() < 2 || crate::text::eq_str(args[1].as_slice(), "all") || crate::text::eq_str(
            args[1].as_slice(),
            "--all",
        ) {
            return Ok(Command::BreakpointRemove { id: None, all: true });
        }
        match parse_id(args[1].as_slice()) {
            Ok(id) => Ok(Command::BreakpointRemove { id: Some(id), all: false }),
            Err(e) => Err(e),
        }
    } else if crate::text::eq_str(sub, "list") {
        Ok(Command::BreakpointList)
    } else if crate::text::eq_str(sub, "enable") {
        if args.len() < 2 {
            return Err(config_message("breakpoint enable requires an ID"));
        }
        match parse_id(args[1].as_slice()) {
            Ok(id) => Ok(Command::BreakpointEnable { id }),
            Err(e) => Err(e),
        }
    } else if crate::text::eq_str(sub, "disable") {
        if args.len() < 2 {
            return Err(config_message("breakpoint disable requires an ID"));
        }
        match parse_id(args[1].as_slice()) {
            Ok(id) => Ok(Command::BreakpointDisable { id }),
            Err(e) => Err(e),
        }
    } else {
        Err(config_error("Unknown breakpoint subcommand: ", sub))
    }
}

/// `output [--tail <n>] [--clear]`.
fn parse_output(args: &[Vec<char>]) -> (r: Command)
    ensures
        ({
            let (tail, clear) = scan_output(crate::text::views(args@), 0, None, false);
            r@ == crate::ipc::protocol::CommandView::GetOutput { tail, clear }
        }),
{
    let ghost a = crate::text::views(args@);
    let mut tail: Option<usize> = None;
    let mut clear = false;
    let mut i: usize = 0;
    while i < args.len()
        invariant
            a == crate::text::views(args@),
            a.len() == args@.len(),
            i <= args@.len(),
            scan_output(a, 0, None, false) == scan_output(a, i as int, tail, clear),
        decreases args@.len() - i,
    {
        assert(a[i as int] == args@[i as int]@);
        if crate::text::eq_str(args[i].as_slice(), "--tail") {
            if i + 1 < args.len() {
                assert(a[i + 1] == args@[i + 1]@);
                tail = crate::number::parse_usize(args[i + 1].as_slice());
                i = i + 2;
            } else {
                i = i + 1;
            }
        } else if crate::text::eq_str(args[i].as_slice(), "--clear") {
            clear = true;
            i = i + 1;
        } else {
            i = i + 1;
        }
    }
    Command::GetOutput { tail, clear }
}

/// The command that a command word (already lower-cased) and its arguments
/// give.
#[verifier::rlimit(40)]
pub fn parse_command_words(cmd: &[char], args: &[Vec<char>]) -> (r: Result<Command, Error>)
    ensures
        outcome_is(r, command_for(cmd@, crate::text::views(args@))),
{
    let ghost a = crate::text::views(args@);
    if args.len() > 0 {
        assert(a[0] == args@[0]@);
    }
    if crate::text::eq_str(cmd, "continue") || crate::text::eq_str(cmd, "c") {
        Ok(Command::Continue)
    } else if crate::text::eq_str(cmd, "next") || crate::text::eq_str(cmd, "n") {
        Ok(Command::Next)
    } else if crate::text::eq_str(cmd, "step") || crate::text::eq_str(cmd, "s") {
        Ok(Command::StepIn)
    } else if crate::text::eq_str(cmd, "finish") || crate::text::eq_str(cmd, "out") {
        Ok(Command::StepOut)
    } else if crate::text::eq_str(cmd, "pause") {
        Ok(Command::Pause)
    } else if crate::text::eq_str(cmd, "break") || crate::text::eq_str(cmd, "b") {
        parse_break(args)
    } else if crate::text::eq_str(cmd, "breakpoint") {
        parse_breakpoint(args)
    } else if crate::text::eq_str(cmd, "locals") {
        Ok(Command::Locals { frame_id: None })
    } else if crate::text::eq_str(cmd, "backtrace") || crate::text::eq_str(cmd, "bt") {
        Ok(Command::StackTrace { thread_id: None, limit: 20 })
    } else if crate::text::eq_str(cmd, "threads") {
        Ok(Command::Threads)
    } else if crate::text::eq_str(cmd, "thread") {
        if args.len() == 0 {
            return Err(config_message("thread command requires an ID"));
        }
        match crate::number::parse_i64(args[0].as_slice()) {
            Some(id) => Ok(Command::ThreadSelect { id }),
            None => Err(config_error("Invalid thread ID: ", args[0].as_slice())),
        }
    } else if crate::text::eq_str(cmd, "frame") {
        if args.len() == 0 {
            return Err(config_message("frame command requires a number"));
        }
        match crate::number::parse_usize(args[0].as_slice()) {
            Some(number) => Ok(Command::FrameSelect { number }),
            None => Err(config_error("Invalid frame number: ", args[0].as_slice())),
        }
    } else if crate::text::eq_str(cmd, "up") {
        Ok(Command::FrameUp)
    } else if crate::text::eq_str(cmd, "down") {
        Ok(Command::FrameDown)
    } else if crate::text::eq_str(cmd, "print") || crate::text::eq_str(cmd, "p") || crate::text::eq_str(
        cmd,
        "eval",
    ) {
        if args.len() == 0 {
            return Err(config_message("print/eval command requires an expression"));
        }
        let mut sep: Vec<char> = Vec::new();
        sep.push(' ');
        let e = crate::text::join(args, sep.as_slice());
        proof {
            assert(sep@ =~= seq![' ']);
        }
        Ok(Command::Evaluate {
            expression: crate::text::string_from(e.as_slice()),
            frame_id: None,
            context: EvaluateContext::Watch,
        })
    } else if crate::text::eq_str(cmd, "stop") {
        Ok(Command::Stop)
    } else if crate::text::eq_str(cmd, "detach") {
        Ok(Command::Detach)
    } else if crate::text::eq_str(cmd, "restart") {
        Ok(Command::Restart)
    } else if crate::text::eq_str(cmd, "output") {
        Ok(parse_output(args))
    } else {
        Err(config_error("Unknown command: ", cmd))
    }
}

/// Parses a line of command text, as a scenario step writes it, into a
/// daemon command.
pub fn parse_command(s: &str) -> (r: Result<Command, Error>)
    ensures
        outcome_is(r, parsed_command(s@)),
{
    let cs = crate::text::chars_of(s);
    let mut parts = crate::text::split_whitespace(cs.as_slice());
    if parts.len() == 0 {
        return Err(config_message("Empty command"));
    }
    let ghost w = crate::text::views(parts@);
    let first = parts.remove(0);
    proof {
        assert(crate::text::views(parts@) =~= w.drop_first());
        assert(w[0] == first@);
    }
    let cmd = crate::text::to_lowercase(first.as_slice());
    parse_command_words(cmd.as_slice(), parts.as_slice())
}

/// How a scenario reaches its program: `Ok(true)` to attach, `Ok(false)` to
/// launch, or the error for a mode that is neither.
pub fn attach_mode(mode: &str) -> (r: Result<bool, Error>)
    ensures
        mode@ == "attach"@ ==> r == Ok::<bool, Error>(true),
        mode@ != "attach"@ && mode@ == "launch"@ ==> r == Ok::<bool, Error>(false),
        mode@ != "attach"@ && mode@ != "launch"@ ==> (r matches Err(Error::Config(t)) && t@ == "Unknown target mode '"@
            + mode@ + "'. Supported modes: 'launch', 'attach'"@),
{
    let m = crate::text::chars_of(mode);
    if crate::text::eq_str(m.as_slice(), "attach") {
        Ok(true)
    } else if !crate::text::eq_str(m.as_slice(), "launch") {
        Err(Error::Config(crate::common::error::text3("Unknown target mode '", m.as_slice(), "'. Supported modes: 'launch', 'attach'")))
    } else {
        Ok(false)
    }
}

/// The process id that a pid file's text holds: the text, trimmed, as a
/// `u32`.
pub fn pid_from_text(text: &str) -> (r: Option<u32>)
    ensures
        match r {
            Some(p) => crate::number::parse_unsigned(crate::text::trimmed(text@), u32::MAX as nat) == Some(p as nat),
            None => crate::number::parse_unsigned(crate::text::trimmed(text@), u32::MAX as nat) is None,
        },
{
    let cs = crate::text::chars_of(text);
    let t = crate::text::trim(cs.as_slice());
    crate::number::parse_u32(t.as_slice())
}

} // verus!
