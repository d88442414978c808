//! What the command line makes of the daemon's answer to a request.

use crate::common::error::{error_from_ipc, IpcError};
use crate::common::Error;
use crate::ipc::protocol::Response;
use crate::json::JsonValue;
use vstd::prelude::*;

verus! {

/// What a request comes to, from the daemon's response: an error when the
/// response answers another request; the result (an empty object when
/// there is none) on success; otherwise the error the daemon sent, rebuilt
/// (an `UNKNOWN` one when it sent none).
pub fn response_outcome(expected_id: u64, response: Response) -> (r: Result<JsonValue, Error>)
    ensures
        response.id != expected_id ==> (r matches Err(Error::DaemonCommunication(m)) && m@
            == "Response ID mismatch: expected "@ + crate::number::decimal_of(expected_id as nat)
            + ", got "@ + crate::number::decimal_of(response.id as nat)),
        response.id == expected_id && response.success ==> match response.result {
            Some(v) => r == Ok::<JsonValue, Error>(v),
            None => r matches Ok(JsonValue::Object(es)) && es@.len() == 0,
        },
        response.id == expected_id && !response.success ==> (r matches Err(e) && match response.error {
            Some(ie) => error_from_ipc(ie.code@, ie.message@, e),
            None => error_from_ipc("UNKNOWN"@, "Unknown error"@, e),
        }),
{
    if response.id != expected_id {
        let mut m = crate::text::chars_of("Response ID mismatch: expected ");
        let a = crate::number::decimal_chars(expected_id);
        crate::text::append(&mut m, a.as_slice());
        crate::text::append_str(&mut m, ", got ");
        let b = crate::number::decimal_chars(response.id);
        crate::text::append(&mut m, b.as_slice());
        return Err(Error::DaemonCommunication(crate::text::string_from(m.as_slice())));
    }
    if response.success {
        match response.result {
            Some(v) => Ok(v),
            None => Ok(JsonValue::Object(Vec::new())),
        }
    } else {
        let e = match response.error {
            Some(ie) => ie,
            None => IpcError { code: String::from_str("UNKNOWN"), message: String::from_str("Unknown error") },
        };
        Err(e.into_error())
    }
}

/// Whether the daemon answers, from the outcome of a status request: yes
/// on any result, no when it is not running; other errors stand.
pub fn ping_outcome(outcome: Result<JsonValue, Error>) -> (r: Result<bool, Error>)
    ensures
        match outcome {
            Ok(_) => r == Ok::<bool, Error>(true),
            Err(Error::DaemonNotRunning) => r == Ok::<bool, Error>(false),
            Err(e) => r == Err::<bool, Error>(e),
        },
{
    match outcome {
        Ok(_) => Ok(true),
        Err(Error::DaemonNotRunning) => Ok(false),
        Err(e) => Err(e),
    }
}

/// Request identifiers: each request gets the next one, from 1 on.
pub struct RequestIds {
    pub next_id: u64,
}

impl RequestIds {
    /// Identifiers starting at 1.
    pub fn new() -> (r: Self)
        ensures
            r.next_id == 1,
    {
        RequestIds { next_id: 1 }
    }

    /// The identifier for the next request.
    pub fn take(&mut self) -> (r: u64)
        requires
            old(self).next_id < u64::MAX,
        ensures
            r == old(self).next_id,
            final(self).next_id == old(self).next_id + 1,
    {
        let id = self.next_id;
        self.next_id = self.next_id + 1;
        id
    }
}

} // verus!
