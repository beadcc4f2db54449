use vstd::prelude::*;

verus! {

/// reqwest's error, carried as an opaque value.
#[verifier::external_type_specification]
#[verifier::external_body]
pub struct ExHttpError(reqwest::Error);

/// serde_json's error, carried as an opaque value.
#[verifier::external_type_specification]
#[verifier::external_body]
pub struct ExJsonError(serde_json::Error);

/// Failures of a worker's dealings with the session engine.
#[derive(Debug)]
pub enum MicroserviceError {
    HttpError(reqwest::Error),
    JsonError(serde_json::Error),
    SessionManagerError { status: u16, message: String },
    RegistrationFailed(String),
    JoinRoomFailed(String),
    NotifyReadyFailed(String),
    ConfigurationError(String),
    Timeout,
    InvalidResponse,
}

pub type Result<T> = core::result::Result<T, MicroserviceError>;

} // verus!
