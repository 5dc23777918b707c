use vstd::prelude::*;
use crate::http::{valid_status, HttpError};
use axum::extract::rejection::JsonRejection;
use sqlx::Error as DbError;

verus! {

/// A failure reported by the database driver; opaque here.
#[verifier::external_type_specification]
#[verifier::external_body]
pub struct ExSqlxError(DbError);

/// A failure to extract a JSON request body; opaque here.
#[verifier::external_type_specification]
#[verifier::external_body]
pub struct ExJsonRejection(JsonRejection);

/// Coarse classification of an error, fixed when the error is built.
#[derive(Debug, Clone, Copy, PartialEq, Eq, Structural)]
pub enum ErrorKind {
    NotFound,
    NotUnique,
    Rejection,
    Other,
}

/// What the database driver signals about a failure: a uniqueness
/// violation, a missing row, or neither.
#[derive(Debug, Clone, Copy, PartialEq, Eq, Structural)]
pub enum PersistenceClass {
    UniqueViolation,
    RowNotFound,
    Unclassified,
}

impl PersistenceClass {
    /// The error kind that a database failure of this class gets.
    pub open spec fn kind(self) -> ErrorKind {
        match self {
            PersistenceClass::UniqueViolation => ErrorKind::NotUnique,
            PersistenceClass::RowNotFound => ErrorKind::NotFound,
            PersistenceClass::Unclassified => ErrorKind::Other,
        }
    }

    /// Classifies from the driver's two signals; the first that holds wins.
    pub fn from_signals(unique_violation: bool, row_not_found: bool) -> (r: PersistenceClass)
        ensures
            r == (if unique_violation {
                PersistenceClass::UniqueViolation
            } else if row_not_found {
                PersistenceClass::RowNotFound
            } else {
                PersistenceClass::Unclassified
            }),
    {
        if unique_violation {
            PersistenceClass::UniqueViolation
        } else if row_not_found {
            PersistenceClass::RowNotFound
        } else {
            PersistenceClass::Unclassified
        }
    }
}

/// The failure an error was built from, kept for diagnostics and for
/// deriving the response status.
#[derive(Debug)]
pub enum ErrorSource {
    Sqlx(DbError),
    Http(HttpError),
    JsonRejection(JsonRejection),
}

/// The status answered for a database failure of the given kind.
pub open spec fn persistence_status(kind: ErrorKind) -> u16 {
    match kind {
        ErrorKind::NotFound => 404,
        ErrorKind::NotUnique => 409,
        _ => 400,
    }
}

/// Relies on axum's `JsonRejection::status` and http's `StatusCode::as_u16`:
/// a status code always lies in 100..=999.
#[verifier::external_body]
fn rejection_status(r: &JsonRejection) -> (s: u16)
    ensures
        valid_status(s),
{
    r.status().as_u16()
}

/// Relies on axum's `JsonRejection::body_text`: the rejection's own
/// description.
#[verifier::external_body]
fn rejection_text(r: &JsonRejection) -> String {
    r.body_text()
}

/// An error as handlers return it: a message for the client, a kind, and
/// the failure it came from.
#[derive(Debug)]
pub struct Error {
    pub msg: String,
    pub kind: ErrorKind,
    pub source: Option<ErrorSource>,
}

impl Error {
    /// `self` is what `http(status, msg)` builds.
    pub open spec fn is_http(self, status: u16, msg: Seq<char>) -> bool {
        &&& self.msg@ == msg
        &&& self.kind == ErrorKind::Other
        &&& self.source matches Some(ErrorSource::Http(h))
        &&& h.msg@ == msg
        &&& h.status == status
    }

    /// `self` wraps the database failure `e` of class `class` under the
    /// context message `msg`.
    pub open spec fn is_persistence(self, e: DbError, class: PersistenceClass, msg: Seq<char>) -> bool {
        &&& self.msg@ == msg
        &&& self.kind == class.kind()
        &&& self.source == Some(ErrorSource::Sqlx(e))
    }

    /// `r` is the response that `self` converts to. Only a rejection's
    /// status is left to the rejection itself.
    pub open spec fn responds_with(self, r: HttpError) -> bool {
        match self.source {
            Some(ErrorSource::Http(h)) => r == h,
            Some(ErrorSource::Sqlx(_)) => r.msg == self.msg && r.status == persistence_status(self.kind),
            Some(ErrorSource::JsonRejection(_)) => r.msg == self.msg && valid_status(r.status),
            None => r.msg == self.msg && r.status == 500,
        }
    }

    /// A handler-level error with its own status and message.
    pub fn http(status: u16, msg: &str) -> (r: Self)
        requires
            valid_status(status),
        ensures
            r.is_http(status, msg@),
    {
        Error {
            msg: String::from_str(msg),
            kind: ErrorKind::Other,
            source: Some(ErrorSource::Http(HttpError { msg: String::from_str(msg), status })),
        }
    }

    /// Wraps the database failure `e`, already classified as `class`, under
    /// the context message `msg`.
    pub fn from_sqlx_classified(e: DbError, class: PersistenceClass, msg: &str) -> (r: Self)
        ensures
            r.is_persistence(e, class, msg@),
    {
        let kind = match class {
            PersistenceClass::UniqueViolation => ErrorKind::NotUnique,
            PersistenceClass::RowNotFound => ErrorKind::NotFound,
            PersistenceClass::Unclassified => ErrorKind::Other,
        };
        Error { msg: String::from_str(msg), kind, source: Some(ErrorSource::Sqlx(e)) }
    }

    /// Wraps the database failure `e` under the context message `msg`,
    /// classifying it by what the driver reports.
    pub fn from_sqlx(e: DbError, msg: &str) -> (r: Self)
        ensures
            exists|class: PersistenceClass| #[trigger] r.is_persistence(e, class, msg@),
    {
        let unique = Self::is_sqlx_unique_violation(&e);
        let not_found = Self::is_sqlx_not_found(&e);
        let class = PersistenceClass::from_signals(unique, not_found);
        let r = Self::from_sqlx_classified(e, class, msg);
        assert(r.is_persistence(e, class, msg@));
        r
    }

    /// Relies on sqlx's `DatabaseError::is_unique_violation`, asked of a
    /// failure that the database itself reported.
    #[verifier::external_body]
    pub fn is_sqlx_unique_violation(e: &DbError) -> bool {
        match e {
            sqlx::Error::Database(db) => db.is_unique_violation(),
            _ => false,
        }
    }

    /// Relies on sqlx's `Error::RowNotFound`: a query that expected a row
    /// found none.
    #[verifier::external_body]
    pub fn is_sqlx_not_found(e: &DbError) -> bool {
        matches!(e, sqlx::Error::RowNotFound)
    }

    /// Wraps a rejected JSON request body; the message is the rejection's
    /// own description.
    pub fn from_rejection(rejection: JsonRejection) -> (r: Self)
        ensures
            r.kind == ErrorKind::Rejection,
            r.source == Some(ErrorSource::JsonRejection(rejection)),
    {
        let msg = rejection_text(&rejection);
        Error { msg, kind: ErrorKind::Rejection, source: Some(ErrorSource::JsonRejection(rejection)) }
    }

    /// The handler-level error this was built from, if any.
    pub fn as_http(&self) -> (r: Option<&HttpError>)
        ensures
            r == (match self.source {
                Some(ErrorSource::Http(h)) => Some(&h),
                _ => None,
            }),
    {
        match &self.source {
            Some(ErrorSource::Http(h)) => Some(h),
            _ => None,
        }
    }

    /// Converts to the status and message sent to the client.
    pub fn to_http(self) -> (r: HttpError)
        ensures
            self.responds_with(r),
    {
        match self.source {
            Some(ErrorSource::Http(h)) => h,
            Some(ErrorSource::Sqlx(_)) => {
                let status: u16 = match self.kind {
                    ErrorKind::NotFound => 404,
                    ErrorKind::NotUnique => 409,
                    _ => 400,
                };
                HttpError { msg: self.msg, status }
            },
            Some(ErrorSource::JsonRejection(rejection)) => {
                let status = rejection_status(&rejection);
                HttpError { msg: self.msg, status }
            },
            None => HttpError { msg: self.msg, status: 500 },
        }
    }

    /// The underlying failure that caused this error, for logging that walks
    /// error chains; a handler-level error, or one with no origin, has none.
    pub fn cause(&self) -> (r: Option<&ErrorSource>)
        ensures
            r == (match self.source {
                Some(ErrorSource::Http(_)) => None,
                Some(s) => Some(&s),
                None => None,
            }),
    {
        match &self.source {
            Some(ErrorSource::Http(_)) => None,
            Some(s) => Some(s),
            None => None,
        }
    }

    /// The text for logs: the message, followed by the underlying failure
    /// where there is one.
    pub fn to_string(&self) -> (r: String)
        ensures
            match self.source {
                Some(ErrorSource::Sqlx(_)) | Some(ErrorSource::JsonRejection(_)) => exists|d: Seq<char>|
                    r@ == #[trigger] with_detail(self.msg@, d),
                _ => r@ == self.msg@,
            },
    {
        let detail = match &self.source {
            Some(ErrorSource::Sqlx(e)) => Some(sqlx_text(e)),
            Some(ErrorSource::JsonRejection(e)) => Some(rejection_display(e)),
            _ => None,
        };
        let mut r = self.msg.clone();
        match detail {
            Some(d) => {
                r.append(": ");
                r.append(d.as_str());
                assert(r@ == with_detail(self.msg@, d@));
            },
            None => {},
        }
        r
    }
}

impl From<JsonRejection> for Error {
    /// Same as `Error::from_rejection`.
    fn from(rejection: JsonRejection) -> (r: Self)
        ensures
            r.kind == ErrorKind::Rejection,
            r.source == Some(ErrorSource::JsonRejection(rejection)),
    {
        Error::from_rejection(rejection)
    }
}

impl vstd::std_specs::convert::FromSpecImpl<JsonRejection> for Error {
    /// The message is the rejection's description, which axum computes, so no
    /// single value is promised; `from` states what is known.
    open spec fn obeys_from_spec() -> bool {
        false
    }

    open spec fn from_spec(v: JsonRejection) -> Error {
        arbitrary()
    }
}

/// The log text of a message `msg` with underlying detail `d`.
pub open spec fn with_detail(msg: Seq<char>, d: Seq<char>) -> Seq<char> {
    msg + ": "@ + d
}

/// Relies on the `Display` of sqlx's `Error`: the driver's description.
#[verifier::external_body]
fn sqlx_text(e: &DbError) -> String {
    e.to_string()
}

/// Relies on the `Display` of axum's `JsonRejection`: the rejection's
/// description.
#[verifier::external_body]
fn rejection_display(r: &JsonRejection) -> String {
    r.to_string()
}

} // verus!
