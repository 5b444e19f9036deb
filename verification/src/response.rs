//! The replies sent to HTTP clients for the outcome of a bus request.

use vstd::prelude::*;
use crate::error::{errors_message, Error, ValidationErrors};
use crate::group::command::{is_short_name_report, lemma_short_name_message, short_name_message};

verus! {

/// The body of a reply to a command that succeeded.
#[derive(Debug, Clone, Copy, PartialEq, Eq)]
pub struct Success {
    pub success: bool,
}

/// The body of a reply to a request that failed.
#[derive(Debug, Clone, PartialEq, Eq)]
pub struct ResponseError {
    pub code: String,
    pub message: String,
}

/// A request that never reached the bus, or whose answer never came back;
/// the text says what happened.
#[derive(Debug, Clone, PartialEq, Eq)]
pub struct MailboxFailure(pub String);

/// The body of a reply.
#[derive(Debug, Clone, PartialEq, Eq)]
pub enum ReplyBody<S> {
    /// The answer, sent as JSON.
    Json(S),
    /// What went wrong, sent as JSON.
    Failure(ResponseError),
}

/// A reply: its HTTP status code and its body.
#[derive(Debug, Clone, PartialEq, Eq)]
pub struct Reply<S> {
    pub status: u16,
    pub body: ReplyBody<S>,
}

/// The status of a successful reply.
pub const STATUS_OK: u16 = 200;

/// The status of a reply to a request that did not pass validation.
pub const STATUS_BAD_REQUEST: u16 = 400;

/// The status of a reply to a request that failed for another reason.
pub const STATUS_INTERNAL_SERVER_ERROR: u16 = 500;

/// The outcome of a query sent to the bus.
pub struct Response<S>(pub Result<Result<S, Error>, MailboxFailure>);

/// The outcome of a command sent to the bus.
pub struct CommandResponse(pub Result<Result<(), Error>, MailboxFailure>);

/// The error that a bus outcome ends with, if any: the bus's own error, or
/// an unknown failure carrying the text of a failed delivery.
pub open spec fn outcome_error<S>(outcome: Result<Result<S, Error>, MailboxFailure>) -> Option<Error> {
    match outcome {
        Result::Ok(Result::Ok(_)) => None,
        Result::Ok(Err(e)) => Some(e),
        Err(MailboxFailure(m)) => Some(Error::Unkown(m)),
    }
}

/// The reply to a failed request: validation failures are the client's
/// fault and are described; any other failure is reported without detail.
pub open spec fn failure_reply(e: Error) -> (u16, Seq<char>, Seq<char>) {
    match e {
        Error::Unkown(_) => (
            STATUS_INTERNAL_SERVER_ERROR,
            "Internal Server Error"@,
            "Oops something went wrong, Please try again later."@,
        ),
        Error::ValidationErrors(_) => (STATUS_BAD_REQUEST, "Bad Request"@, e.text()),
    }
}

/// Whether `reply` is the reply to the failed request `e`.
pub open spec fn is_failure_reply<S>(reply: Reply<S>, e: Error) -> bool {
    &&& reply.status == failure_reply(e).0
    &&& reply.body matches ReplyBody::Failure(f) && f.code@ == failure_reply(e).1
        && f.message@ == failure_reply(e).2
}

/// The reply to a failed request.
fn failure(e: Error) -> (r: ResponseError)
    requires
        e.displayable(),
    ensures
        r.code@ == failure_reply(e).1,
        r.message@ == failure_reply(e).2,
{
    match e {
        Error::Unkown(_) => ResponseError {
            code: String::from_str("Internal Server Error"),
            message: String::from_str("Oops something went wrong, Please try again later."),
        },
        Error::ValidationErrors(_) => {
            let message = e.to_string();
            ResponseError { code: String::from_str("Bad Request"), message }
        },
    }
}

impl<S> Response<S> {
    /// The reply to the outcome: the answer with status 200, or the failure
    /// reply for the error the outcome ends with.
    pub fn into_reply(self) -> (r: Reply<S>)
        requires
            outcome_error(self.0) matches Some(e) ==> e.displayable(),
        ensures
            match self.0 {
                Result::Ok(Result::Ok(s)) => r.status == STATUS_OK && r.body == ReplyBody::Json(s),
                _ => is_failure_reply(r, outcome_error(self.0)->0),
            },
    {
        let res = match self.0 {
            Result::Ok(inner) => inner,
            Err(MailboxFailure(m)) => Err(Error::Unkown(m)),
        };
        match res {
            Result::Ok(s) => Reply { status: STATUS_OK, body: ReplyBody::Json(s) },
            Err(e) => {
                let status: u16 = if matches!(e, Error::Unkown(_)) {
                    STATUS_INTERNAL_SERVER_ERROR
                } else {
                    STATUS_BAD_REQUEST
                };
                Reply { status, body: ReplyBody::Failure(failure(e)) }
            },
        }
    }
}

impl CommandResponse {
    /// The reply to the outcome of a command: `{"success": true}` with status
    /// 200, or the failure reply for the error the outcome ends with.
    pub fn into_reply(self) -> (r: Reply<Success>)
        requires
            outcome_error(self.0) matches Some(e) ==> e.displayable(),
        ensures
            match self.0 {
                Result::Ok(Result::Ok(())) => r.status == STATUS_OK && r.body == ReplyBody::Json(
                    Success { success: true },
                ),
                _ => is_failure_reply(r, outcome_error(self.0)->0),
            },
    {
        let mapped: Result<Result<Success, Error>, MailboxFailure> = match self.0 {
            Result::Ok(Result::Ok(())) => Result::Ok(Result::Ok(Success { success: true })),
            Result::Ok(Err(e)) => Result::Ok(Err(e)),
            Err(m) => Err(m),
        };
        Response(mapped).into_reply()
    }
}

/// Failures other than validation failures are all answered alike: the reply
/// tells nothing of what went wrong.
pub proof fn lemma_unknown_failures_look_alike(a: String, b: String)
    ensures
        failure_reply(Error::Unkown(a)) == failure_reply(Error::Unkown(b)),
        failure_reply(Error::Unkown(a)).0 == STATUS_INTERNAL_SERVER_ERROR,
{
}

/// Every validation failure is answered with status 400, code "Bad Request"
/// and the report's own message: the message for its first failure, or
/// nothing where the report leads to no failure.
pub proof fn lemma_validation_reply<S>(v: ValidationErrors, reply: Reply<S>)
    requires
        is_failure_reply(reply, Error::ValidationErrors(v)),
    ensures
        reply.status == STATUS_BAD_REQUEST,
        reply.body matches ReplyBody::Failure(f) && f.code@ == "Bad Request"@ && f.message@ == (
        match errors_message(Seq::empty(), v) {
            Some(m) => m,
            None => Seq::empty(),
        }),
{
}

/// A request to create a group whose name is too short is answered with
/// status 400, code "Bad Request" and the message "The field .name must be
/// at least 3 characters long".
pub proof fn lemma_short_name_reply<S>(report: ValidationErrors, name: Seq<char>, reply: Reply<S>)
    requires
        is_short_name_report(report, name),
        is_failure_reply(reply, Error::ValidationErrors(report)),
    ensures
        Error::ValidationErrors(report).displayable(),
        reply.status == STATUS_BAD_REQUEST,
        reply.body matches ReplyBody::Failure(f) && f.code@ == "Bad Request"@ && f.message@
            == short_name_message(),
{
    lemma_short_name_message(report, name);
}

} // verus!
