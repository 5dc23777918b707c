//! Normalised API errors: one error type that absorbs database failures,
//! request-body rejections and handler-level failures, classifies them, and
//! turns each into exactly one HTTP status and JSON body.

pub mod error;
pub mod http;
pub mod laws;

pub use error::{Error, ErrorKind, ErrorSource, PersistenceClass};
pub use http::HttpError;
