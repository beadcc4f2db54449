use std::collections::HashMap;
use vstd::prelude::*;

verus! {

/// Default timeout of a worker's requests to the session engine, in seconds.
pub const DEFAULT_REQUEST_TIMEOUT_SECS: u64 = 30;

/// How a worker service reaches the session engine and how it is reached.
#[derive(Debug, Clone)]
pub struct MicroserviceConfig {
    /// Base address of the session engine, e.g. `http://localhost:8080`.
    pub session_manager_url: String,
    pub service_id: String,
    /// Where the engine sends join instructions to this worker.
    pub service_endpoint: String,
    pub metadata: HashMap<String, String>,
    pub request_timeout_secs: u64,
}

impl MicroserviceConfig {
    pub fn new(session_manager_url: String, service_id: String, service_endpoint: String) -> (r: Self)
        ensures
            r.session_manager_url == session_manager_url,
            r.service_id == service_id,
            r.service_endpoint == service_endpoint,
            r.metadata@ == Map::<String, String>::empty(),
            r.request_timeout_secs == DEFAULT_REQUEST_TIMEOUT_SECS,
    {
        MicroserviceConfig {
            session_manager_url,
            service_id,
            service_endpoint,
            metadata: HashMap::new(),
            request_timeout_secs: DEFAULT_REQUEST_TIMEOUT_SECS,
        }
    }

    pub fn with_metadata(self, metadata: HashMap<String, String>) -> (r: Self)
        ensures
            r.session_manager_url == self.session_manager_url,
            r.service_id == self.service_id,
            r.service_endpoint == self.service_endpoint,
            r.metadata == metadata,
            r.request_timeout_secs == self.request_timeout_secs,
    {
        let mut r = self;
        r.metadata = metadata;
        r
    }

    pub fn with_timeout(self, timeout_secs: u64) -> (r: Self)
        ensures
            r.session_manager_url == self.session_manager_url,
            r.service_id == self.service_id,
            r.service_endpoint == self.service_endpoint,
            r.metadata == self.metadata,
            r.request_timeout_secs == timeout_secs,
    {
        let mut r = self;
        r.request_timeout_secs = timeout_secs;
        r
    }
}

/// A worker's request to be registered with the session engine.
#[derive(Debug)]
pub struct RegisterMicroserviceRequest {
    pub service_id: String,
    pub endpoint: String,
    pub metadata: Option<HashMap<String, String>>,
}

#[derive(Debug)]
pub struct RegisterMicroserviceResponse {
    pub success: bool,
    pub service_id: String,
    pub message: String,
}

/// A join instruction, as a worker receives it.
#[derive(Debug, Clone)]
pub struct JoinRoomRequest {
    pub room_name: String,
    pub session_id: String,
    pub service_identity: String,
    pub access_token: String,
    pub livekit_url: String,
}

/// A worker's answer to a join instruction.
#[derive(Debug)]
pub struct JoinRoomResponse {
    pub success: bool,
    pub message: String,
    pub session_id: String,
    pub service_id: String,
}

#[derive(Debug)]
pub struct ServiceReadyRequest {
    pub service_id: String,
}

#[derive(Debug)]
pub struct ServiceReadyResponse {
    pub success: bool,
    pub message: String,
    pub all_services_ready: bool,
}

/// An error reply of the session engine.
#[derive(Debug)]
pub struct ErrorResponse {
    pub error: String,
    pub message: String,
    pub timestamp: String,
}

} // verus!
