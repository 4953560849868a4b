//! What a batch of tool requests answers: for each request, the tool's
//! output or an error with its code.

use vstd::prelude::*;
use crate::text::{concat, push_str, to_owned};

verus! {

/// An error answered to a tool request.
#[derive(Debug, Clone)]
pub struct ResponseError {
    pub message: String,
    pub code: Option<String>,
}

/// The output of a tool run for a request: the output text, the request's
/// id (empty without one) and whether it ran at once or as a job.
#[derive(Debug, Clone)]
pub struct ToolRunRecord {
    pub output: String,
    pub id: String,
    /// "immediate" or "background".
    pub status: String,
}

/// The answer to one tool request: a result or an error.
#[derive(Debug, Clone)]
pub struct ToolResponse {
    pub result: Option<ToolRunRecord>,
    pub error: Option<ResponseError>,
}

/// The answer carries this error message and code, and no result.
pub open spec fn is_error_response(r: ToolResponse, message: Seq<char>, code: Seq<char>) -> bool {
    &&& r.result is None
    &&& r.error matches Some(e) && e.message@ == message && (e.code matches Some(c) && c@ == code)
}

fn error_response(message: String, code: &str) -> (r: ToolResponse)
    ensures
        is_error_response(r, message@, code@),
{
    ToolResponse {
        result: None,
        error: Some(ResponseError { message, code: Some(to_owned(code)) }),
    }
}

/// The answer to a request for a tool that does not exist.
pub fn not_found_response(action: &str) -> (r: ToolResponse)
    ensures
        is_error_response(r, "Tool '"@ + action@ + "' not found"@, "NOT_FOUND"@),
{
    let mut m = concat("Tool '", action);
    push_str(&mut m, "' not found");
    error_response(m, "NOT_FOUND")
}

/// The answer to a request the permissions refuse.
pub fn permission_denied_response(message: &str) -> (r: ToolResponse)
    ensures
        is_error_response(r, message@, "PERMISSION_DENIED"@),
{
    error_response(to_owned(message), "PERMISSION_DENIED")
}

/// The answer to a request whose tool failed.
pub fn tool_error_response(message: &str) -> (r: ToolResponse)
    ensures
        is_error_response(r, message@, "TOOL_ERROR"@),
{
    error_response(to_owned(message), "TOOL_ERROR")
}

/// The answer to a request whose tool ran: its output, the request id (or
/// nothing) and "background" or "immediate".
pub fn tool_success_response(output: String, id: Option<String>, background: bool) -> (r:
    ToolResponse)
    ensures
        r.error is None,
        r.result matches Some(rec) && rec.output@ == output@ && rec.id@ == (match id {
            Some(i) => i@,
            None => Seq::<char>::empty(),
        }) && rec.status@ == (if background {
            "background"@
        } else {
            "immediate"@
        }),
{
    let id = match id {
        Some(i) => i,
        None => String::new(),
    };
    let status = if background {
        to_owned("background")
    } else {
        to_owned("immediate")
    };
    ToolResponse { result: Some(ToolRunRecord { output, id, status }), error: None }
}

/// The memory entry recorded before a tool runs.
pub fn tool_call_entry(action: &str, args: &str) -> (r: String)
    ensures
        r@ == "Action: "@ + action@ + "\nInput: "@ + args@,
{
    let mut m = concat("Action: ", action);
    push_str(&mut m, "\nInput: ");
    push_str(&mut m, args);
    m
}

/// The memory entry recorded for a failed tool.
pub fn tool_error_entry(error: &str) -> (r: String)
    ensures
        r@ == "Error: "@ + error@,
{
    concat("Error: ", error)
}

/// The status published when the memory could not record an entry.
pub fn memory_error_status(error: &str) -> (r: String)
    ensures
        r@ == "Memory logging error: "@ + error@,
{
    concat("Memory logging error: ", error)
}

} // verus!
