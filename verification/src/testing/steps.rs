//! The checks of a scenario's steps: each takes what the daemon answered and
//! the step's expectations, and gives the first failed expectation as a
//! test-assertion error.

use crate::common::Error;
use crate::ipc::protocol::{EvaluateResult, StackFrameInfo, StopResult, VariableInfo};
use crate::testing::config::{
    CommandExpectation, EvaluateExpectation, FrameAssertion, StopExpectation, VariableAssertion,
};
use vstd::prelude::*;

verus! {

/// The text of an optional string, or the empty text.
pub open spec fn text_or_empty(o: Option<String>) -> Seq<char> {
    match o {
        Some(s) => s@,
        None => seq![],
    }
}

/// An optional number, or 0.
pub open spec fn line_or_zero(o: Option<u32>) -> nat {
    match o {
        Some(n) => n as nat,
        None => 0,
    }
}

/// The text of a boolean.
pub open spec fn bool_text(b: bool) -> Seq<char> {
    if b {
        "true"@
    } else {
        "false"@
    }
}

/// `r` is the outcome of a check whose failure message, if any, is `m`.
pub open spec fn check_outcome(r: Result<(), Error>, m: Option<Seq<char>>) -> bool {
    match m {
        None => r is Ok,
        Some(t) => (r matches Err(Error::TestAssertion(x)) && x@ == t),
    }
}

/// A test-assertion error with the given message.
fn failure(m: Vec<char>) -> (e: Error)
    ensures
        e matches Error::TestAssertion(t) && t@ == m@,
{
    Error::TestAssertion(crate::text::string_from(m.as_slice()))
}

/// The characters of a string.
fn chars(s: &String) -> (r: Vec<char>)
    ensures
        r@ == s@,
{
    crate::text::chars_of(s.as_str())
}

/// The characters of an optional string, or none.
fn chars_or_empty(o: &Option<String>) -> (r: Vec<char>)
    ensures
        r@ == text_or_empty(*o),
{
    match o {
        Some(s) => chars(s),
        None => Vec::new(),
    }
}

/// Whether `s` holds `p`.
fn holds(s: &[char], p: &String) -> (r: bool)
    ensures
        r == crate::text::contains_seq(s@, p@),
{
    let pc = chars(p);
    crate::text::contains(s, pc.as_slice())
}

/// The text of a boolean.
fn bool_chars(b: bool) -> (r: Vec<char>)
    ensures
        r@ == bool_text(b),
{
    if b {
        crate::text::chars_of("true")
    } else {
        crate::text::chars_of("false")
    }
}

/// Whether a command step's outcome is what it expects: `Err` when the
/// expected success differs from the actual one; `Ok(true)` when the step
/// expected the command to fail (its error is then not reported); `Ok(false)`
/// when the command's own outcome stands.
pub fn check_command_outcome(command: &str, expect: Option<&CommandExpectation>, did_succeed: bool) -> (r: Result<bool, Error>)
    ensures
        match expect {
            Some(exp) => match exp.success {
                Some(should) => if should != did_succeed {
                    r matches Err(Error::TestAssertion(t)) && t@ == "Command '"@ + command@
                        + "' expected success="@ + bool_text(should) + ", got success="@ + bool_text(did_succeed)
                } else {
                    r == Ok::<bool, Error>(!should)
                },
                None => r == Ok::<bool, Error>(false),
            },
            None => r == Ok::<bool, Error>(false),
        },
{
    match expect {
        Some(exp) => match exp.success {
            Some(should) => {
                if should != did_succeed {
                    let mut m = crate::text::chars_of("Command '");
                    crate::text::append_str(&mut m, command);
                    crate::text::append_str(&mut m, "' expected success=");
                    let a = bool_chars(should);
                    crate::text::append(&mut m, a.as_slice());
                    crate::text::append_str(&mut m, ", got success=");
                    let b = bool_chars(did_succeed);
                    crate::text::append(&mut m, b.as_slice());
                    Err(failure(m))
                } else {
                    Ok(!should)
                }
            },
            None => Ok(false),
        },
        None => Ok(false),
    }
}

/// The first expectation of an await step that the stop fails, as its
/// message.
pub open spec fn stop_failure(exp: StopExpectation, stop: StopResult) -> Option<Seq<char>> {
    if exp.reason matches Some(r) && !crate::text::contains_seq(stop.reason@, r@) {
        Some("Expected stop reason '"@ + exp.reason->0@ + "', got '"@ + stop.reason@ + "'"@)
    } else if exp.file matches Some(f) && !crate::text::contains_seq(text_or_empty(stop.source), f@) {
        Some("Expected file '"@ + exp.file->0@ + "', got '"@ + text_or_empty(stop.source) + "'"@)
    } else if exp.line matches Some(l) && l as nat != line_or_zero(stop.line) {
        Some("Expected line "@ + crate::number::decimal_of(exp.line->0 as nat) + ", got "@
            + crate::number::decimal_of(line_or_zero(stop.line)))
    } else {
        None
    }
}

/// A stop passes an await step's expectations only when it meets each of
/// them: its reason contains the expected reason, its file the expected
/// file, and its line (0 when it has none) equals the expected line. A stop
/// that meets the reason and file but stopped on another line, above or
/// below, fails with `Expected line L, got A`.
pub proof fn law_stop_expectations(exp: StopExpectation, stop: StopResult)
    ensures
        stop_failure(exp, stop) is None ==> {
            &&& exp.reason matches Some(r) ==> crate::text::contains_seq(stop.reason@, r@)
            &&& exp.file matches Some(f) ==> crate::text::contains_seq(text_or_empty(stop.source), f@)
            &&& exp.line matches Some(l) ==> l as nat == line_or_zero(stop.line)
        },
        (exp.reason matches Some(r) ==> crate::text::contains_seq(stop.reason@, r@)) && (exp.file matches Some(f)
            ==> crate::text::contains_seq(text_or_empty(stop.source), f@)) ==> match exp.line {
            Some(l) => if l as nat == line_or_zero(stop.line) {
                stop_failure(exp, stop) is None
            } else {
                stop_failure(exp, stop) == Some(
                    "Expected line "@ + crate::number::decimal_of(l as nat) + ", got "@ + crate::number::decimal_of(
                        line_or_zero(stop.line),
                    ),
                )
            },
            None => stop_failure(exp, stop) is None,
        },
{
}

/// Checks a stop against an await step's expectations.
pub fn check_stop(exp: &StopExpectation, stop: &StopResult) -> (r: Result<(), Error>)
    ensures
        check_outcome(r, stop_failure(*exp, *stop)),
{
    let reason = chars(&stop.reason);
    if let Some(want) = &exp.reason {
        if !holds(reason.as_slice(), want) {
            let mut m = crate::text::chars_of("Expected stop reason '");
            crate::text::append_str(&mut m, want.as_str());
            crate::text::append_str(&mut m, "', got '");
            crate::text::append(&mut m, reason.as_slice());
            crate::text::append_str(&mut m, "'");
            return Err(failure(m));
        }
    }
    let file = chars_or_empty(&stop.source);
    if let Some(want) = &exp.file {
        if !holds(file.as_slice(), want) {
            let mut m = crate::text::chars_of("Expected file '");
            crate::text::append_str(&mut m, want.as_str());
            crate::text::append_str(&mut m, "', got '");
            crate::text::append(&mut m, file.as_slice());
            crate::text::append_str(&mut m, "'");
            return Err(failure(m));
        }
    }
    if let Some(want) = exp.line {
        let actual: u32 = match stop.line {
            Some(l) => l,
            None => 0,
        };
        if want != actual {
            let mut m = crate::text::chars_of("Expected line ");
            let a = crate::number::decimal_chars(want as u64);
            crate::text::append(&mut m, a.as_slice());
            crate::text::append_str(&mut m, ", got ");
            let b = crate::number::decimal_chars(actual as u64);
            crate::text::append(&mut m, b.as_slice());
            return Err(failure(m));
        }
    }
    Ok(())
}

/// Where a stop happened, as the runner prints it: `file:line`, the file, or
/// `unknown location`.
pub open spec fn stop_location_text(stop: StopResult) -> Seq<char> {
    match stop.source {
        Some(s) => match stop.line {
            Some(l) => s@ + ":"@ + crate::number::decimal_of(l as nat),
            None => s@,
        },
        None => "unknown location"@,
    }
}

/// Where a stop happened, as the runner prints it.
pub fn stop_location(stop: &StopResult) -> (r: String)
    ensures
        r@ == stop_location_text(*stop),
{
    match &stop.source {
        Some(s) => match stop.line {
            Some(l) => {
                let mut m = chars(s);
                crate::text::append_str(&mut m, ":");
                let d = crate::number::decimal_chars(l as u64);
                crate::text::append(&mut m, d.as_slice());
                crate::text::string_from(m.as_slice())
            },
            None => s.clone(),
        },
        None => String::from_str("unknown location"),
    }
}

/// The index of the first variable from `k` on with the given name.
pub open spec fn variable_index(vars: Seq<VariableInfo>, name: Seq<char>, k: int) -> Option<int>
    decreases vars.len() - k,
{
    if k < 0 || k >= vars.len() {
        None
    } else if vars[k].name@ == name {
        Some(k)
    } else {
        variable_index(vars, name, k + 1)
    }
}

proof fn lemma_variable_index(vars: Seq<VariableInfo>, name: Seq<char>, k: int)
    ensures
        variable_index(vars, name, k) matches Some(j) ==> k <= j < vars.len() && vars[j].name@ == name,
    decreases vars.len() - k,
{
    if !(k < 0 || k >= vars.len()) && vars[k].name@ != name {
        lemma_variable_index(vars, name, k + 1);
    }
}

/// The names of the variables.
pub open spec fn variable_names(vars: Seq<VariableInfo>) -> Seq<Seq<char>> {
    vars.map_values(|v: VariableInfo| v.name@)
}

/// The first expectation on one variable that the variables fail.
pub open spec fn variable_failure(a: VariableAssertion, vars: Seq<VariableInfo>) -> Option<Seq<char>> {
    match variable_index(vars, a.name@, 0) {
        None => Some("Variable '"@ + a.name@ + "' not found. Available: "@ + crate::text::debug_names_text(variable_names(vars))),
        Some(k) => {
            let v = vars[k];
            if a.value matches Some(want) && v.value@ != want@ {
                Some("Variable '"@ + a.name@ + "': expected value '"@ + a.value->0@ + "', got '"@ + v.value@ + "'"@)
            } else if a.value_contains matches Some(want) && !crate::text::contains_seq(v.value@, want@) {
                Some("Variable '"@ + a.name@ + "': expected value containing '"@ + a.value_contains->0@
                    + "', got '"@ + v.value@ + "'"@)
            } else if a.value_type matches Some(want) && text_or_empty(v.value_type) != want@ {
                Some("Variable '"@ + a.name@ + "': expected type '"@ + a.value_type->0@ + "', got '"@
                    + text_or_empty(v.value_type) + "'"@)
            } else {
                None
            }
        },
    }
}

/// The first failed expectation of the assertions from index `i` on.
pub open spec fn variables_failure(asserts: Seq<VariableAssertion>, vars: Seq<VariableInfo>, i: int) -> Option<Seq<char>>
    decreases asserts.len() - i,
{
    if i < 0 || i >= asserts.len() {
        None
    } else {
        match variable_failure(asserts[i], vars) {
            Some(m) => Some(m),
            None => variables_failure(asserts, vars, i + 1),
        }
    }
}

/// The index of the first variable with the given name.
fn find_variable(vars: &[VariableInfo], name: &String) -> (r: Option<usize>)
    ensures
        match r {
            Some(k) => variable_index(vars@, name@, 0) == Some(k as int),
            None => variable_index(vars@, name@, 0) is None,
        },
{
    let want = chars(name);
    let mut k: usize = 0;
    while k < vars.len()
        invariant
            k <= vars@.len(),
            want@ == name@,
            variable_index(vars@, name@, 0) == variable_index(vars@, name@, k as int),
        decreases vars@.len() - k,
    {
        let n = chars(&vars[k].name);
        if crate::text::seq_eq(n.as_slice(), want.as_slice()) {
            return Some(k);
        }
        k = k + 1;
    }
    None
}

/// The names of the variables, in order.
fn names_of(vars: &[VariableInfo]) -> (r: Vec<String>)
    ensures
        r@.map_values(|s: String| s@) == variable_names(vars@),
{
    let mut out: Vec<String> = Vec::new();
    let mut k: usize = 0;
    while k < vars.len()
        invariant
            k <= vars@.len(),
            out@.map_values(|s: String| s@) == variable_names(vars@.take(k as int)),
        decreases vars@.len() - k,
    {
        let n = crate::text::string_from(chars(&vars[k].name).as_slice());
        proof {
            assert(variable_names(vars@.take(k + 1)) =~= variable_names(vars@.take(k as int)).push(n@));
            assert(out@.push(n).map_values(|s: String| s@) =~= out@.map_values(|s: String| s@).push(n@));
        }
        out.push(n);
        k = k + 1;
    }
    proof {
        assert(vars@.take(vars@.len() as int) =~= vars@);
    }
    out
}

/// Checks one variable assertion.
fn check_variable(a: &VariableAssertion, vars: &[VariableInfo]) -> (r: Result<(), Error>)
    ensures
        check_outcome(r, variable_failure(*a, vars@)),
{
    match find_variable(vars, &a.name) {
        None => {
            let mut m = crate::text::chars_of("Variable '");
            crate::text::append_str(&mut m, a.name.as_str());
            crate::text::append_str(&mut m, "' not found. Available: ");
            let names = names_of(vars);
            let shown = crate::text::debug_names(&names);
            crate::text::append_str(&mut m, shown.as_str());
            Err(failure(m))
        },
        Some(k) => {
            proof {
                lemma_variable_index(vars@, a.name@, 0);
            }
            let v = &vars[k];
            let value = chars(&v.value);
            if let Some(want) = &a.value {
                let w = chars(want);
                if !crate::text::seq_eq(value.as_slice(), w.as_slice()) {
                    let mut m = crate::text::chars_of("Variable '");
                    crate::text::append_str(&mut m, a.name.as_str());
                    crate::text::append_str(&mut m, "': expected value '");
                    crate::text::append(&mut m, w.as_slice());
                    crate::text::append_str(&mut m, "', got '");
                    crate::text::append(&mut m, value.as_slice());
                    crate::text::append_str(&mut m, "'");
                    return Err(failure(m));
                }
            }
            if let Some(want) = &a.value_contains {
                if !holds(value.as_slice(), want) {
                    let mut m = crate::text::chars_of("Variable '");
                    crate::text::append_str(&mut m, a.name.as_str());
                    crate::text::append_str(&mut m, "': expected value containing '");
                    crate::text::append_str(&mut m, want.as_str());
                    crate::text::append_str(&mut m, "', got '");
                    crate::text::append(&mut m, value.as_slice());
                    crate::text::append_str(&mut m, "'");
                    return Err(failure(m));
                }
            }
            if let Some(want) = &a.value_type {
                let actual = chars_or_empty(&v.value_type);
                let w = chars(want);
                if !crate::text::seq_eq(actual.as_slice(), w.as_slice()) {
                    let mut m = crate::text::chars_of("Variable '");
                    crate::text::append_str(&mut m, a.name.as_str());
                    crate::text::append_str(&mut m, "': expected type '");
                    crate::text::append(&mut m, w.as_slice());
                    crate::text::append_str(&mut m, "', got '");
                    crate::text::append(&mut m, actual.as_slice());
                    crate::text::append_str(&mut m, "'");
                    return Err(failure(m));
                }
            }
            Ok(())
        },
    }
}

/// Checks the local variables against an inspect-locals step's assertions,
/// in order.
pub fn check_variables(asserts: &[VariableAssertion], vars: &[VariableInfo]) -> (r: Result<(), Error>)
    ensures
        check_outcome(r, variables_failure(asserts@, vars@, 0)),
{
    let mut i: usize = 0;
    while i < asserts.len()
        invariant
            i <= asserts@.len(),
            variables_failure(asserts@, vars@, 0) == variables_failure(asserts@, vars@, i as int),
        decreases asserts@.len() - i,
    {
        match check_variable(&asserts[i], vars) {
            Ok(()) => {},
            Err(e) => {
                return Err(e);
            },
        }
        i = i + 1;
    }
    Ok(())
}

/// The first expectation on one frame that the stack fails.
pub open spec fn frame_failure(a: FrameAssertion, frames: Seq<StackFrameInfo>) -> Option<Seq<char>> {
    let idx = crate::number::decimal_of(a.index as nat);
    if a.index >= frames.len() {
        Some("Frame "@ + idx + " does not exist (only "@ + crate::number::decimal_of(frames.len()) + " frames)"@)
    } else {
        let f = frames[a.index as int];
        if a.function matches Some(want) && !crate::text::contains_seq(f.name@, want@) {
            Some("Frame "@ + idx + ": expected function '"@ + a.function->0@ + "', got '"@ + f.name@ + "'"@)
        } else if a.file matches Some(want) && !crate::text::contains_seq(text_or_empty(f.source), want@) {
            Some("Frame "@ + idx + ": expected file '"@ + a.file->0@ + "', got '"@ + text_or_empty(f.source) + "'"@)
        } else if a.line matches Some(want) && want as nat != line_or_zero(f.line) {
            Some("Frame "@ + idx + ": expected line "@ + crate::number::decimal_of(a.line->0 as nat) + ", got "@
                + crate::number::decimal_of(line_or_zero(f.line)))
        } else {
            None
        }
    }
}

/// The first failed expectation of the frame assertions from index `i` on.
pub open spec fn frames_failure(asserts: Seq<FrameAssertion>, frames: Seq<StackFrameInfo>, i: int) -> Option<Seq<char>>
    decreases asserts.len() - i,
{
    if i < 0 || i >= asserts.len() {
        None
    } else {
        match frame_failure(asserts[i], frames) {
            Some(m) => Some(m),
            None => frames_failure(asserts, frames, i + 1),
        }
    }
}

/// Checks one frame assertion.
fn check_frame(a: &FrameAssertion, frames: &[StackFrameInfo]) -> (r: Result<(), Error>)
    ensures
        check_outcome(r, frame_failure(*a, frames@)),
{
    let idx = crate::number::decimal_chars(a.index as u64);
    if a.index >= frames.len() {
        let mut m = crate::text::chars_of("Frame ");
        crate::text::append(&mut m, idx.as_slice());
        crate::text::append_str(&mut m, " does not exist (only ");
        let n = crate::number::decimal_chars(frames.len() as u64);
        crate::text::append(&mut m, n.as_slice());
        crate::text::append_str(&mut m, " frames)");
        return Err(failure(m));
    }
    let f = &frames[a.index];
    if let Some(want) = &a.function {
        let name = chars(&f.name);
        if !holds(name.as_slice(), want) {
            let mut m = crate::text::chars_of("Frame ");
            crate::text::append(&mut m, idx.as_slice());
            crate::text::append_str(&mut m, ": expected function '");
            crate::text::append_str(&mut m, want.as_str());
            crate::text::append_str(&mut m, "', got '");
            crate::text::append(&mut m, name.as_slice());
            crate::text::append_str(&mut m, "'");
            return Err(failure(m));
        }
    }
    if let Some(want) = &a.file {
        let file = chars_or_empty(&f.source);
        if !holds(file.as_slice(), want) {
            let mut m = crate::text::chars_of("Frame ");
            crate::text::append(&mut m, idx.as_slice());
            crate::text::append_str(&mut m, ": expected file '");
            crate::text::append_str(&mut m, want.as_str());
            crate::text::append_str(&mut m, "', got '");
            crate::text::append(&mut m, file.as_slice());
            crate::text::append_str(&mut m, "'");
            return Err(failure(m));
        }
    }
    if let Some(want) = a.line {
        let actual: u32 = match f.line {
            Some(l) => l,
            None => 0,
        };
        if want != actual {
            let mut m = crate::text::chars_of("Frame ");
            crate::text::append(&mut m, idx.as_slice());
            crate::text::append_str(&mut m, ": expected line ");
            let a1 = crate::number::decimal_chars(want as u64);
            crate::text::append(&mut m, a1.as_slice());
            crate::text::append_str(&mut m, ", got ");
            let b1 = crate::number::decimal_chars(actual as u64);
            crate::text::append(&mut m, b1.as_slice());
            return Err(failure(m));
        }
    }
    Ok(())
}

/// Checks the stack against an inspect-stack step's assertions, in order.
pub fn check_frames(asserts: &[FrameAssertion], frames: &[StackFrameInfo]) -> (r: Result<(), Error>)
    ensures
        check_outcome(r, frames_failure(asserts@, frames@, 0)),
{
    let mut i: usize = 0;
    while i < asserts.len()
        invariant
            i <= asserts@.len(),
            frames_failure(asserts@, frames@, 0) == frames_failure(asserts@, frames@, i as int),
        decreases asserts@.len() - i,
    {
        match check_frame(&asserts[i], frames) {
            Ok(()) => {},
            Err(e) => {
                return Err(e);
            },
        }
        i = i + 1;
    }
    Ok(())
}

/// The output as a failed check shows it: its first 200 bytes and `...` when
/// it is longer.
pub open spec fn shown_output(output: Seq<char>) -> Seq<char> {
    let b = vstd::utf8::encode_utf8(output);
    if b.len() > 200 {
        vstd::utf8::decode_utf8(b.take(200)) + "..."@
    } else {
        output
    }
}

/// The first expectation of a check-output step that the output fails.
pub open spec fn output_failure(contains: Option<String>, equals: Option<String>, output: Seq<char>) -> Option<Seq<char>> {
    if contains matches Some(c) && !crate::text::contains_seq(output, c@) {
        Some("Output does not contain '"@ + contains->0@ + "'. Got: '"@ + shown_output(output) + "'"@)
    } else if equals matches Some(e) && crate::text::trimmed(output) != crate::text::trimmed(e@) {
        Some("Output mismatch. Expected: '"@ + equals->0@ + "', got: '"@ + output + "'"@)
    } else {
        None
    }
}

/// Checks the program's output against a check-output step. Showing a long
/// output cuts it after 200 bytes, which must end a character.
pub fn check_output(contains: Option<&String>, equals: Option<&String>, output: &str) -> (r: Result<(), Error>)
    requires
        ({
            let b = vstd::utf8::encode_utf8(output@);
            (contains matches Some(c) && !crate::text::contains_seq(output@, c@) && b.len() > 200)
                ==> vstd::utf8::valid_utf8(b.take(200))
        }),
    ensures
        check_outcome(
            r,
            output_failure(
                match contains {
                    Some(c) => Some(*c),
                    None => None,
                },
                match equals {
                    Some(e) => Some(*e),
                    None => None,
                },
                output@,
            ),
        ),
{
    let out = crate::text::chars_of(output);
    if let Some(want) = contains {
        if !holds(out.as_slice(), want) {
            let bytes = crate::text::bytes_of(output);
            let mut m = crate::text::chars_of("Output does not contain '");
            crate::text::append_str(&mut m, want.as_str());
            crate::text::append_str(&mut m, "'. Got: '");
            if bytes.len() > 200 {
                let head = crate::text::byte_range(bytes.as_slice(), 0, 200);
                proof {
                    assert(head@ =~= bytes@.take(200));
                }
                match crate::text::utf8_decode(head.as_slice()) {
                    Ok(text) => {
                        assert(text@ == vstd::utf8::decode_utf8(bytes@.take(200)));
                        crate::text::append_str(&mut m, text.as_str());
                        crate::text::append_str(&mut m, "...");
                    },
                    Err(_) => {
                        proof {
                            assert(false);
                        }
                    },
                }
            } else {
                crate::text::append(&mut m, out.as_slice());
            }
            crate::text::append_str(&mut m, "'");
            assert(m@ == "Output does not contain '"@ + want@ + "'. Got: '"@ + shown_output(output@) + "'"@);
            return Err(failure(m));
        }
    }
    if let Some(want) = equals {
        let w = chars(want);
        let a = crate::text::trim(out.as_slice());
        let b = crate::text::trim(w.as_slice());
        if !crate::text::seq_eq(a.as_slice(), b.as_slice()) {
            let mut m = crate::text::chars_of("Output mismatch. Expected: '");
            crate::text::append(&mut m, w.as_slice());
            crate::text::append_str(&mut m, "', got: '");
            crate::text::append(&mut m, out.as_slice());
            crate::text::append_str(&mut m, "'");
            return Err(failure(m));
        }
    }
    Ok(())
}

/// Whether an evaluate step expects the evaluation to succeed (it does
/// unless it says otherwise).
pub open spec fn expects_success(expect: Option<EvaluateExpectation>) -> bool {
    match expect {
        Some(e) => match e.success {
            Some(b) => b,
            None => true,
        },
        None => true,
    }
}

/// Whether an evaluate step expects the evaluation to succeed.
pub fn evaluate_expects_success(expect: Option<&EvaluateExpectation>) -> (r: bool)
    ensures
        r == expects_success(
            match expect {
                Some(e) => Some(*e),
                None => None,
            },
        ),
{
    match expect {
        Some(e) => match e.success {
            Some(b) => b,
            None => true,
        },
        None => true,
    }
}

/// When an evaluation expected to fail gave a result: it still passes when
/// the result, lower-cased, holds the expected text, lower-cased.
pub open spec fn unexpected_result_failure(expression: Seq<char>, expect: Option<EvaluateExpectation>, result: EvaluateResult) -> Option<Seq<char>> {
    if expect matches Some(e) && e.result_contains matches Some(want) && crate::text::contains_seq(
        crate::text::lowercase_of(result.result@),
        crate::text::lowercase_of(want@),
    ) {
        None
    } else {
        Some("Evaluate '"@ + expression + "': expected failure but got result '"@ + result.result@ + "'"@)
    }
}

/// Checks the result of an evaluation that the step expected to fail.
pub fn check_unexpected_result(expression: &str, expect: Option<&EvaluateExpectation>, result: &EvaluateResult) -> (r: Result<(), Error>)
    ensures
        check_outcome(
            r,
            unexpected_result_failure(
                expression@,
                match expect {
                    Some(e) => Some(*e),
                    None => None,
                },
                *result,
            ),
        ),
{
    let value = chars(&result.result);
    if let Some(e) = expect {
        if let Some(want) = &e.result_contains {
            let a = crate::text::to_lowercase(value.as_slice());
            let w = chars(want);
            let b = crate::text::to_lowercase(w.as_slice());
            if crate::text::contains(a.as_slice(), b.as_slice()) {
                return Ok(());
            }
        }
    }
    let mut m = crate::text::chars_of("Evaluate '");
    crate::text::append_str(&mut m, expression);
    crate::text::append_str(&mut m, "': expected failure but got result '");
    crate::text::append(&mut m, value.as_slice());
    crate::text::append_str(&mut m, "'");
    Err(failure(m))
}

/// The first expectation of an evaluate step that a result fails.
pub open spec fn evaluate_failure(expression: Seq<char>, expect: Option<EvaluateExpectation>, result: EvaluateResult) -> Option<Seq<char>> {
    match expect {
        None => None,
        Some(e) => if e.result matches Some(want) && result.result@ != want@ {
            Some("Evaluate '"@ + expression + "': expected '"@ + e.result->0@ + "', got '"@ + result.result@ + "'"@)
        } else if e.result_contains matches Some(want) && !crate::text::contains_seq(result.result@, want@) {
            Some("Evaluate '"@ + expression + "': expected result containing '"@ + e.result_contains->0@
                + "', got '"@ + result.result@ + "'"@)
        } else if e.value_type matches Some(want) && text_or_empty(result.value_type) != want@ {
            Some("Evaluate '"@ + expression + "': expected type '"@ + e.value_type->0@ + "', got '"@
                + text_or_empty(result.value_type) + "'"@)
        } else {
            None
        },
    }
}

/// Checks the result of an evaluation against the step's expectations.
pub fn check_evaluate(expression: &str, expect: Option<&EvaluateExpectation>, result: &EvaluateResult) -> (r: Result<(), Error>)
    ensures
        check_outcome(
            r,
            evaluate_failure(
                expression@,
                match expect {
                    Some(e) => Some(*e),
                    None => None,
                },
                *result,
            ),
        ),
{
    let value = chars(&result.result);
    if let Some(e) = expect {
        if let Some(want) = &e.result {
            let w = chars(want);
            if !crate::text::seq_eq(value.as_slice(), w.as_slice()) {
                let mut m = crate::text::chars_of("Evaluate '");
                crate::text::append_str(&mut m, expression);
                crate::text::append_str(&mut m, "': expected '");
                crate::text::append(&mut m, w.as_slice());
                crate::text::append_str(&mut m, "', got '");
                crate::text::append(&mut m, value.as_slice());
                crate::text::append_str(&mut m, "'");
                return Err(failure(m));
            }
        }
        if let Some(want) = &e.result_contains {
            if !holds(value.as_slice(), want) {
                let mut m = crate::text::chars_of("Evaluate '");
                crate::text::append_str(&mut m, expression);
                crate::text::append_str(&mut m, "': expected result containing '");
                crate::text::append_str(&mut m, want.as_str());
                crate::text::append_str(&mut m, "', got '");
                crate::text::append(&mut m, value.as_slice());
                crate::text::append_str(&mut m, "'");
                return Err(failure(m));
            }
        }
        if let Some(want) = &e.value_type {
            let actual = chars_or_empty(&result.value_type);
            let w = chars(want);
            if !crate::text::seq_eq(actual.as_slice(), w.as_slice()) {
                let mut m = crate::text::chars_of("Evaluate '");
                crate::text::append_str(&mut m, expression);
                crate::text::append_str(&mut m, "': expected type '");
                crate::text::append(&mut m, w.as_slice());
                crate::text::append_str(&mut m, "', got '");
                crate::text::append(&mut m, actual.as_slice());
                crate::text::append_str(&mut m, "'");
                return Err(failure(m));
            }
        }
    }
    Ok(())
}

} // verus!
