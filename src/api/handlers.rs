use vstd::prelude::*;

use crate::api::models::ErrorResponse;
use crate::utils::errors::SessionManagerError;

verus! {

/// The HTTP status and error kind a failure is reported with.
pub open spec fn error_status_of(e: SessionManagerError) -> (u16, Seq<char>) {
    match e {
        SessionManagerError::SessionNotFound { .. } => (404, "SessionNotFound"@),
        SessionManagerError::InvalidRequest(_) => (400, "InvalidRequest"@),
        SessionManagerError::MicroserviceJoinTimeout => (408, "Timeout"@),
        SessionManagerError::Configuration(_) => (500, "Configuration"@),
        _ => (500, "InternalError"@),
    }
}

/// Maps a failure to its HTTP status and error kind.
pub fn error_status(error: &SessionManagerError) -> (r: (u16, &'static str))
    ensures
        r.0 == error_status_of(*error).0,
        r.1@ == error_status_of(*error).1,
{
    match error {
        SessionManagerError::SessionNotFound { .. } => (404, "SessionNotFound"),
        SessionManagerError::InvalidRequest(_) => (400, "InvalidRequest"),
        SessionManagerError::MicroserviceJoinTimeout => (408, "Timeout"),
        SessionManagerError::Configuration(_) => (500, "Configuration"),
        _ => (500, "InternalError"),
    }
}

/// The body of an error reply, stamped with `timestamp`.
pub fn error_response(error: &SessionManagerError, timestamp: i64) -> (r: (u16, ErrorResponse))
    ensures
        r.0 == error_status_of(*error).0,
        r.1.error@ == error_status_of(*error).1,
        r.1.message@ == error.message_of(),
        r.1.timestamp == timestamp,
{
    let (code, kind) = error_status(error);
    (code, ErrorResponse { error: kind.to_owned(), message: error.message(), timestamp })
}

} // verus!
