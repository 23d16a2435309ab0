//! The answer to a request: success, or failure with a message.

use vstd::prelude::*;

verus! {

/// The answer to a request, as a mathematical value.
pub enum Reply {
    Success,
    Fail(Seq<char>),
}

/// The answer to a request.
#[derive(Debug, PartialEq, Eq)]
pub enum JsonResult {
    /// Rendered as `{"result":"success"}`.
    Success,
    /// Rendered as `{"result":"fail","error":<error>}`.
    Fail { error: String },
}

impl View for JsonResult {
    type V = Reply;

    open spec fn view(&self) -> Reply {
        match self {
            JsonResult::Success => Reply::Success,
            JsonResult::Fail { error } => Reply::Fail(error@),
        }
    }
}

/// The answer for an outcome whose error was turned into its message.
pub open spec fn reply_of(result: Result<(), Seq<char>>) -> Reply {
    match result {
        Ok(()) => Reply::Success,
        Err(message) => Reply::Fail(message),
    }
}

/// The answer for `result`: success, or failure with the message.
pub fn map_json_result(result: Result<(), String>) -> (answer: JsonResult)
    ensures
        answer@ == match result {
            Ok(()) => Reply::Success,
            Err(message) => Reply::Fail(message@),
        },
{
    match result {
        Ok(()) => JsonResult::Success,
        Err(message) => fail(message),
    }
}

/// The answer that reports a failure with the message `err`.
pub fn fail(err: String) -> (answer: JsonResult)
    ensures
        answer@ == Reply::Fail(err@),
{
    JsonResult::Fail { error: err }
}

} // verus!
