use vstd::prelude::*;

verus! {

/// The failures of the session engine. Reasons are human-readable text.
#[derive(Debug)]
pub enum SessionManagerError {
    SessionNotFound { session_id: String },
    /// The room provider failed: room creation or deletion, credential
    /// minting, joining or publishing.
    LiveKit(String),
    Storage(String),
    /// A worker could not be reached; never fatal to session creation.
    MicroserviceCommunication(String),
    Configuration(String),
    /// The session did not become ready in time.
    MicroserviceJoinTimeout,
    InvalidRequest(String),
    Internal(String),
}

impl SessionManagerError {
    /// The message of the error, as it is shown to a caller.
    pub open spec fn message_of(self) -> Seq<char> {
        match self {
            SessionManagerError::SessionNotFound { session_id } => "Session not found: "@ + session_id@,
            SessionManagerError::LiveKit(e) => "LiveKit error: "@ + e@,
            SessionManagerError::Storage(e) => "Storage error: "@ + e@,
            SessionManagerError::MicroserviceCommunication(e) => "Microservice communication error: "@ + e@,
            SessionManagerError::Configuration(e) => "Configuration error: "@ + e@,
            SessionManagerError::MicroserviceJoinTimeout => "Timeout waiting for microservices to join"@,
            SessionManagerError::InvalidRequest(e) => "Invalid request: "@ + e@,
            SessionManagerError::Internal(e) => "Internal error: "@ + e@,
        }
    }

    pub fn message(&self) -> (r: String)
        ensures
            r@ == self.message_of(),
    {
        match self {
            SessionManagerError::SessionNotFound { session_id } => {
                let mut m = String::from_str("Session not found: ");
                m.append(session_id.as_str());
                m
            },
            SessionManagerError::LiveKit(e) => prefixed("LiveKit error: ", e),
            SessionManagerError::Storage(e) => prefixed("Storage error: ", e),
            SessionManagerError::MicroserviceCommunication(e) => prefixed("Microservice communication error: ", e),
            SessionManagerError::Configuration(e) => prefixed("Configuration error: ", e),
            SessionManagerError::MicroserviceJoinTimeout => String::from_str("Timeout waiting for microservices to join"),
            SessionManagerError::InvalidRequest(e) => prefixed("Invalid request: ", e),
            SessionManagerError::Internal(e) => prefixed("Internal error: ", e),
        }
    }
}

/// `head` followed by `tail`.
pub fn prefixed(head: &str, tail: &String) -> (r: String)
    ensures
        r@ == head@ + tail@,
{
    let mut m = String::from_str(head);
    m.append(tail.as_str());
    m
}

pub type Result<T> = core::result::Result<T, SessionManagerError>;

} // verus!
