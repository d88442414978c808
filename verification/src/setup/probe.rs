//! Checking that an installed adapter works: the initialize request sent to
//! it, and what its answer and its output mean.

use crate::common::Error;
use crate::json::JsonValue;
use vstd::prelude::*;

verus! {

/// The outcome of checking an installation.
#[derive(Debug, Clone)]
pub struct VerifyResult {
    /// Whether the check succeeded.
    pub success: bool,
    /// The adapter's capabilities, when it answered.
    pub capabilities: Option<DapCapabilities>,
    /// Why the check failed.
    pub error: Option<String>,
}

/// The capabilities that the check reads.
#[derive(Debug, Clone, Copy)]
pub struct DapCapabilities {
    pub supports_configuration_done_request: bool,
    pub supports_function_breakpoints: bool,
    pub supports_conditional_breakpoints: bool,
    pub supports_evaluate_for_hovers: bool,
}

impl Default for DapCapabilities {
    fn default() -> (r: Self)
        ensures
            !r.supports_configuration_done_request,
            !r.supports_function_breakpoints,
            !r.supports_conditional_breakpoints,
            !r.supports_evaluate_for_hovers,
    {
        DapCapabilities {
            supports_configuration_done_request: false,
            supports_function_breakpoints: false,
            supports_conditional_breakpoints: false,
            supports_evaluate_for_hovers: false,
        }
    }
}

impl VerifyResult {
    /// A successful check with the adapter's capabilities.
    pub fn passed(capabilities: DapCapabilities) -> (r: Self)
        ensures
            r.success,
            r.capabilities == Some(capabilities),
            r.error is None,
    {
        VerifyResult { success: true, capabilities: Some(capabilities), error: None }
    }

    /// A failed check.
    pub fn failed(error: String) -> (r: Self)
        ensures
            !r.success,
            r.capabilities is None,
            r.error == Some(error),
    {
        VerifyResult { success: false, capabilities: None, error: Some(error) }
    }
}

/// A boolean member, or `false`.
pub open spec fn flag(v: Option<JsonValue>, key: Seq<char>) -> bool {
    match v {
        Some(b) => match crate::json::member(b, key) {
            Some(JsonValue::Bool(x)) => x,
            _ => false,
        },
        None => false,
    }
}

/// What an initialize response means: the capabilities in its body when
/// its `success` member is `true`, else the failure with its message.
pub open spec fn initialize_outcome_spec(response: JsonValue) -> Result<DapCapabilities, Seq<char>> {
    if crate::json::member(response, "success"@) == Some(JsonValue::Bool(true)) {
        let body = crate::json::member(response, "body"@);
        Ok(DapCapabilities {
            supports_configuration_done_request: flag(body, "supportsConfigurationDoneRequest"@),
            supports_function_breakpoints: flag(body, "supportsFunctionBreakpoints"@),
            supports_conditional_breakpoints: flag(body, "supportsConditionalBreakpoints"@),
            supports_evaluate_for_hovers: flag(body, "supportsEvaluateForHovers"@),
        })
    } else {
        let message = match crate::json::member(response, "message"@) {
            Some(JsonValue::Str(s)) => s@,
            _ => "Unknown error"@,
        };
        Err("Initialize failed: "@ + message)
    }
}

/// A boolean member of an optional object, or `false`.
fn read_flag(body: &Option<JsonValue>, key: &str) -> (r: bool)
    ensures
        r == flag(*body, key@),
{
    match body {
        Some(b) => match crate::json::get_bool(b, key) {
            Some(x) => x,
            None => false,
        },
        None => false,
    }
}

/// What an adapter's answer to the initialize request means.
pub fn initialize_outcome(response: JsonValue) -> (r: Result<DapCapabilities, Error>)
    ensures
        match initialize_outcome_spec(response) {
            Ok(c) => r == Ok::<DapCapabilities, Error>(c),
            Err(m) => (r matches Err(Error::Internal(t)) && t@ == m),
        },
{
    let ok = crate::json::get_bool(&response, "success");
    if ok == Some(true) {
        let body = crate::json::take_member(response, "body");
        Ok(DapCapabilities {
            supports_configuration_done_request: read_flag(&body, "supportsConfigurationDoneRequest"),
            supports_function_breakpoints: read_flag(&body, "supportsFunctionBreakpoints"),
            supports_conditional_breakpoints: read_flag(&body, "supportsConditionalBreakpoints"),
            supports_evaluate_for_hovers: read_flag(&body, "supportsEvaluateForHovers"),
        })
    } else {
        let message = match crate::json::get_str(&response, "message") {
            Some(s) => crate::text::chars_of(s.as_str()),
            None => crate::text::chars_of("Unknown error"),
        };
        proof {
            crate::common::error::lemma_empty_suffix();
        }
        Err(Error::Internal(crate::common::error::text3("Initialize failed: ", message.as_slice(), "")))
    }
}

/// The JSON of the initialize request the check sends.
pub open spec fn initialize_request_spec(r: JsonValue) -> bool {
    r matches JsonValue::Object(e) && e@.len() == 4 && e@[0].0@ == "seq"@ && e@[0].1 == JsonValue::Number(1)
        && e@[1].0@ == "type"@ && (e@[1].1 matches JsonValue::Str(t) && t@ == "request"@) && e@[2].0@ == "command"@
        && (e@[2].1 matches JsonValue::Str(c) && c@ == "initialize"@) && e@[3].0@ == "arguments"@ && (
    e@[3].1 matches JsonValue::Object(a) && a@.len() == 7 && a@[0].0@ == "clientID"@ && (a@[0].1 matches JsonValue::Str(
        x,
    ) && x@ == "debugger-cli"@) && a@[1].0@ == "clientName"@ && (a@[1].1 matches JsonValue::Str(x) && x@
        == "debugger-cli"@) && a@[2].0@ == "adapterID"@ && (a@[2].1 matches JsonValue::Str(x) && x@ == "test"@)
        && a@[3].0@ == "pathFormat"@ && (a@[3].1 matches JsonValue::Str(x) && x@ == "path"@) && a@[4].0@
        == "linesStartAt1"@ && a@[4].1 == JsonValue::Bool(true) && a@[5].0@ == "columnsStartAt1"@ && a@[5].1
        == JsonValue::Bool(true) && a@[6].0@ == "supportsRunInTerminalRequest"@ && a@[6].1 == JsonValue::Bool(false))
}

/// The initialize request the check sends.
pub fn initialize_request() -> (r: JsonValue)
    ensures
        initialize_request_spec(r),
{
    let mut args: Vec<(String, JsonValue)> = Vec::new();
    args.push(crate::json::entry("clientID", crate::json::jstr("debugger-cli")));
    args.push(crate::json::entry("clientName", crate::json::jstr("debugger-cli")));
    args.push(crate::json::entry("adapterID", crate::json::jstr("test")));
    args.push(crate::json::entry("pathFormat", crate::json::jstr("path")));
    args.push(crate::json::entry("linesStartAt1", JsonValue::Bool(true)));
    args.push(crate::json::entry("columnsStartAt1", JsonValue::Bool(true)));
    args.push(crate::json::entry("supportsRunInTerminalRequest", JsonValue::Bool(false)));
    let mut e: Vec<(String, JsonValue)> = Vec::new();
    e.push(crate::json::entry("seq", JsonValue::Number(1)));
    e.push(crate::json::entry("type", crate::json::jstr("request")));
    e.push(crate::json::entry("command", crate::json::jstr("initialize")));
    e.push(crate::json::entry("arguments", JsonValue::Object(args)));
    JsonValue::Object(e)
}

/// What a header line of the adapter's answer says.
#[derive(Debug, Clone, Copy, PartialEq, Eq, Structural)]
pub enum HeaderLine {
    /// The blank line that ends the headers.
    End,
    /// A `Content-Length` header, with its value when it is a number.
    Length(Option<usize>),
    /// Another header.
    Other,
}

/// What a header line says, once trimmed.
pub open spec fn header_line_spec(line: Seq<char>) -> HeaderLine {
    let t = crate::text::trimmed(line);
    if t.len() == 0 {
        HeaderLine::End
    } else if crate::text::has_prefix(t, "Content-Length:"@) {
        match crate::number::parse_unsigned(crate::text::trimmed(t.skip(15)), usize::MAX as nat) {
            Some(n) => HeaderLine::Length(Some(n as usize)),
            None => HeaderLine::Length(None),
        }
    } else {
        HeaderLine::Other
    }
}

/// Reads a header line of the adapter's answer.
pub fn header_line(line: &str) -> (r: HeaderLine)
    ensures
        r == header_line_spec(line@),
{
    let cs = crate::text::chars_of(line);
    let t = crate::text::trim(cs.as_slice());
    if t.len() == 0 {
        return HeaderLine::End;
    }
    if crate::text::starts_with_str(t.as_slice(), "Content-Length:") {
        proof {
            reveal_strlit("Content-Length:");
        }
        let rest = crate::text::slice_range(t.as_slice(), 15, t.len());
        let v = crate::text::trim(rest.as_slice());
        proof {
            assert(rest@ =~= t@.skip(15));
        }
        HeaderLine::Length(crate::number::parse_usize(v.as_slice()))
    } else {
        HeaderLine::Other
    }
}

} // verus!
