//! Laws of the conversion from errors to responses.

use vstd::prelude::*;
use crate::error::{Error, ErrorKind, ErrorSource, PersistenceClass};
use crate::http::{message_body, valid_status, HttpError};
use sqlx::Error as DbError;

verus! {

/// A database failure classified as a uniqueness violation answers 409.
pub proof fn unique_violation_answers_conflict(err: Error, r: HttpError)
    requires
        err.source matches Some(ErrorSource::Sqlx(_)),
        err.kind == ErrorKind::NotUnique,
        err.responds_with(r),
    ensures
        r.status == 409,
{
}

/// A database failure classified as a missing row answers 404.
pub proof fn row_not_found_answers_not_found(err: Error, r: HttpError)
    requires
        err.source matches Some(ErrorSource::Sqlx(_)),
        err.kind == ErrorKind::NotFound,
        err.responds_with(r),
    ensures
        r.status == 404,
{
}

/// Any other database failure answers 400.
pub proof fn other_persistence_failure_answers_bad_request(err: Error, r: HttpError)
    requires
        err.source matches Some(ErrorSource::Sqlx(_)),
        err.kind != ErrorKind::NotUnique,
        err.kind != ErrorKind::NotFound,
        err.responds_with(r),
    ensures
        r.status == 400,
{
}

/// An error built by `Error::http(s, m)` answers exactly status `s` with the
/// body `{"message": m}`.
pub proof fn http_error_answers_its_status_and_message(
    status: u16,
    msg: Seq<char>,
    err: Error,
    r: HttpError,
)
    requires
        valid_status(status),
        err.is_http(status, msg),
        err.responds_with(r),
    ensures
        r.status == status,
        r.msg@ == msg,
        message_body(r.msg@) == message_body(msg),
{
}

/// Converting the same error twice gives the same message both times, and
/// the same response wherever the status is not left to a rejection.
pub proof fn response_is_deterministic(err: Error, r1: HttpError, r2: HttpError)
    requires
        err.responds_with(r1),
        err.responds_with(r2),
    ensures
        r1.msg == r2.msg,
        !(err.source matches Some(ErrorSource::JsonRejection(_))) ==> r1 == r2,
{
}

/// A duplicate key reported by the database, wrapped with a context message,
/// answers 409 with that context message, not the driver's text.
pub proof fn duplicate_key_answers_conflict_with_context(
    e: DbError,
    msg: Seq<char>,
    err: Error,
    r: HttpError,
)
    requires
        err.is_persistence(e, PersistenceClass::UniqueViolation, msg),
        err.responds_with(r),
    ensures
        r.status == 409,
        r.msg@ == msg,
{
}

} // verus!
