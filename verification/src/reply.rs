//! HTTP reply helpers.

use crate::body::{error_json, error_json_of};
use vstd::prelude::*;

verus! {

/// An HTTP reply: a status code and a JSON body.
pub struct Reply {
    /// Status code.
    pub status: u16,
    /// JSON body.
    pub body: String,
}

/// A literal JSON body with status 200.
pub fn ok(body: &str) -> (reply: Reply)
    ensures
        reply.status == 200,
        reply.body@ == body@,
{
    Reply { status: 200, body: body.to_owned() }
}

/// Client error: status 400 with the error object of `message`.
pub fn bad(message: &str) -> (reply: Reply)
    ensures
        reply.status == 400,
        reply.body@ == error_json_of(message@),
{
    Reply { status: 400, body: error_json(message) }
}

/// Protocol / session error: status 409 with the error object of `message`.
pub fn fail(message: &str) -> (reply: Reply)
    ensures
        reply.status == 409,
        reply.body@ == error_json_of(message@),
{
    Reply { status: 409, body: error_json(message) }
}

/// The reply for a value that was encoded as JSON: 200 with the encoding,
/// or a 409 carrying the encoder's error message.
pub fn json_reply(encoded: Result<String, String>) -> (reply: Reply)
    ensures
        match encoded {
            Ok(body) => reply.status == 200 && reply.body@ == body@,
            Err(error) => reply.status == 409 && reply.body@ == error_json_of(error@),
        },
{
    match encoded {
        Ok(body) => Reply { status: 200, body },
        Err(error) => fail(error.as_str()),
    }
}

/// The reply for an operation that reports nothing but success: the
/// `{"ok":true}` flag, or a 409 carrying the operation's error message.
pub fn flag_reply(outcome: Result<(), String>) -> (reply: Reply)
    ensures
        match outcome {
            Ok(()) => reply.status == 200 && reply.body@ == "{\"ok\":true}"@,
            Err(error) => reply.status == 409 && reply.body@ == error_json_of(error@),
        },
{
    match outcome {
        Ok(()) => ok_flag(),
        Err(error) => fail(error.as_str()),
    }
}

/// The answer to a CORS preflight: 204 with an empty body.
pub fn preflight() -> (reply: Reply)
    ensures
        reply.status == 204,
        reply.body@ == Seq::<char>::empty(),
{
    Reply { status: 204, body: String::new() }
}

/// The answer to an unknown route: 404 with the error object "not found".
pub fn not_found() -> (reply: Reply)
    ensures
        reply.status == 404,
        reply.body@ == error_json_of("not found"@),
{
    Reply { status: 404, body: error_json("not found") }
}

/// `{"ok":true}` with status 200: the health answer and the answer of an
/// operation that has nothing else to report.
pub fn ok_flag() -> (reply: Reply)
    ensures
        reply.status == 200,
        reply.body@ == "{\"ok\":true}"@,
{
    ok("{\"ok\":true}")
}

} // verus!
