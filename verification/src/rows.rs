//! Reading the answer to a single request whose rows the caller has decoded.

use vstd::prelude::*;
use crate::failure::{ErrorKind, Failure, Step};
use crate::remote::{is_success, success_status};

verus! {

/// What a request to the relational backend came to, with the rows that the
/// caller decoded from the body, or the decoder's message.
#[derive(Debug, PartialEq, Eq)]
pub enum Reply<T> {
    /// No request was sent: the connection settings or the session are missing.
    Unavailable { failure: Failure },
    /// The request was sent and no answer came back.
    Unreachable { detail: String },
    /// The backend answered.
    Answered { status: u16, body: String, rows: Result<Vec<T>, String> },
}

/// The rows of an accepted answer that could be decoded.
pub open spec fn decoded_rows<T>(reply: Reply<T>) -> Option<Vec<T>> {
    match reply {
        Reply::Answered { status, rows: Ok(v), .. } => if success_status(status) {
            Some(v)
        } else {
            None
        },
        _ => None,
    }
}

/// The failure that stands for a reply without usable rows: the failure that
/// kept the request from being sent; else a `RemoteStoreError` with the
/// transport's message, or with the status and the body of a refusal, or with
/// the status and the decoder's message.
pub open spec fn rejected<T>(reply: Reply<T>, step: Step, f: Failure) -> bool {
    match reply {
        Reply::Unavailable { failure } => f == failure,
        Reply::Unreachable { detail } => f.is(ErrorKind::RemoteStoreError, step, None, detail@),
        Reply::Answered { status, body, rows } => if !success_status(status) {
            f.is(ErrorKind::RemoteStoreError, step, Some(status), body@)
        } else {
            match rows {
                Err(detail) => f.is(ErrorKind::RemoteStoreError, step, Some(status), detail@),
                Ok(_) => false,
            }
        },
    }
}

/// All rows of the answer.
pub fn all_rows<T>(reply: Reply<T>, step: Step) -> (r: Result<Vec<T>, Failure>)
    ensures
        match decoded_rows(reply) {
            Some(v) => r == Ok::<Vec<T>, Failure>(v),
            None => r matches Err(f) && rejected(reply, step, f),
        },
{
    match reply {
        Reply::Unavailable { failure } => Err(failure),
        Reply::Unreachable { detail } => Err(
            Failure::reported(ErrorKind::RemoteStoreError, step, detail),
        ),
        Reply::Answered { status, body, rows } => {
            if !is_success(status) {
                Err(Failure::answered(step, status, body))
            } else {
                match rows {
                    Ok(v) => Ok(v),
                    Err(detail) => Err(
                        Failure {
                            kind: ErrorKind::RemoteStoreError,
                            step,
                            status: Some(status),
                            detail,
                        },
                    ),
                }
            }
        },
    }
}

/// The first row of the answer, if it has one.
pub fn maybe_first_row<T>(reply: Reply<T>, step: Step) -> (r: Result<Option<T>, Failure>)
    ensures
        match decoded_rows(reply) {
            Some(v) => r == Ok::<Option<T>, Failure>(
                if v@.len() > 0 {
                    Some(v@[0])
                } else {
                    None
                },
            ),
            None => r matches Err(f) && rejected(reply, step, f),
        },
{
    match all_rows(reply, step) {
        Ok(mut v) => {
            if v.len() > 0 {
                Ok(Some(v.remove(0)))
            } else {
                Ok(None)
            }
        },
        Err(f) => Err(f),
    }
}

/// The first row of an answer that must have one; `NotFound` for an answer
/// without rows.
pub fn first_row<T>(reply: Reply<T>, step: Step) -> (r: Result<T, Failure>)
    ensures
        match decoded_rows(reply) {
            Some(v) => if v@.len() > 0 {
                r == Ok::<T, Failure>(v@[0])
            } else {
                r matches Err(f) && f.is(ErrorKind::NotFound, step, None, Seq::empty())
            },
            None => r matches Err(f) && rejected(reply, step, f),
        },
{
    match all_rows(reply, step) {
        Ok(mut v) => {
            if v.len() > 0 {
                Ok(v.remove(0))
            } else {
                Err(Failure::rule(ErrorKind::NotFound, step))
            }
        },
        Err(f) => Err(f),
    }
}

/// Whether the answer has no rows.
pub fn no_rows<T>(reply: Reply<T>, step: Step) -> (r: Result<bool, Failure>)
    ensures
        match decoded_rows(reply) {
            Some(v) => r == Ok::<bool, Failure>(v@.len() == 0),
            None => r matches Err(f) && rejected(reply, step, f),
        },
{
    match all_rows(reply, step) {
        Ok(v) => Ok(v.len() == 0),
        Err(f) => Err(f),
    }
}

/// Refuses work that needs a session when there is none.
pub fn require_session(has_session: bool) -> (r: Result<(), Failure>)
    ensures
        has_session ==> r is Ok,
        !has_session ==> (r matches Err(f) && f.is(
            ErrorKind::AuthenticationRequired,
            Step::Session,
            None,
            Seq::empty(),
        )),
{
    if has_session {
        Ok(())
    } else {
        Err(Failure::rule(ErrorKind::AuthenticationRequired, Step::Session))
    }
}

} // verus!
