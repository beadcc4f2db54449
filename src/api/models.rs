use std::collections::HashMap;
use vstd::prelude::*;

use crate::domain::microservice::{MicroserviceInfo, ServiceStatus};
use crate::domain::session::{Session, SessionStatus, pending_ids, string_views};
use crate::services::session_service;

verus! {

/// A worker's request to be registered.
#[derive(Debug)]
pub struct RegisterMicroserviceRequest {
    pub service_id: String,
    pub endpoint: String,
    pub metadata: Option<HashMap<String, String>>,
}

#[derive(Debug)]
pub struct RegisterMicroserviceResponse {
    pub success: bool,
    pub service_id: String,
    pub message: String,
}

/// A caller's request to create a session.
#[derive(Debug)]
pub struct CreateSessionRequest {
    pub user_identity: String,
    pub user_name: Option<String>,
    pub room_name: Option<String>,
    pub metadata: Option<HashMap<String, String>>,
    pub required_services: Option<Vec<String>>,
}

#[derive(Debug)]
pub struct CreateSessionResponse {
    pub session_id: String,
    pub room_name: String,
    pub access_token: String,
    pub livekit_url: String,
    pub status: SessionStatus,
}

/// Progress of a session; `created_at` in milliseconds since the Unix epoch.
#[derive(Debug)]
pub struct SessionStatusResponse {
    pub session_id: String,
    pub room_name: String,
    pub status: SessionStatus,
    pub ready_services: Vec<String>,
    pub pending_services: Vec<String>,
    pub created_at: i64,
}

#[derive(Debug)]
pub struct ServiceReadyRequest {
    pub service_id: String,
}

#[derive(Debug)]
pub struct ServiceReadyResponse {
    pub success: bool,
    pub message: String,
    pub all_services_ready: bool,
}

/// `timestamp` in milliseconds since the Unix epoch.
#[derive(Debug)]
pub struct HealthCheckResponse {
    pub status: String,
    pub timestamp: i64,
    pub version: String,
}

/// `timestamp` in milliseconds since the Unix epoch.
#[derive(Debug)]
pub struct ErrorResponse {
    pub error: String,
    pub message: String,
    pub timestamp: i64,
}

impl RegisterMicroserviceRequest {
    /// The descriptor to register: freshly `Registered`, with the given
    /// metadata or none.
    pub fn into_info(self) -> (r: MicroserviceInfo)
        ensures
            r.service_id@ == self.service_id@,
            r.endpoint@ == self.endpoint@,
            r.status == ServiceStatus::Registered,
            r.metadata@ == match self.metadata { Some(m) => m@, None => Map::<String, String>::empty() },
    {
        let metadata = match self.metadata {
            Some(m) => m,
            None => HashMap::new(),
        };
        MicroserviceInfo::new(self.service_id, self.endpoint, metadata)
    }
}

impl RegisterMicroserviceResponse {
    pub fn registered(service_id: String) -> (r: Self)
        ensures
            r.success,
            r.service_id@ == service_id@,
            r.message@ == "Microservice registered successfully"@,
    {
        RegisterMicroserviceResponse {
            success: true,
            service_id,
            message: String::from_str("Microservice registered successfully"),
        }
    }
}

impl CreateSessionRequest {
    /// The same request, for the session service.
    pub fn into_service_request(self) -> (r: session_service::CreateSessionRequest)
        ensures
            r.user_identity == self.user_identity,
            r.user_name == self.user_name,
            r.room_name == self.room_name,
            r.metadata == self.metadata,
            r.required_services == self.required_services,
    {
        session_service::CreateSessionRequest {
            user_identity: self.user_identity,
            user_name: self.user_name,
            room_name: self.room_name,
            metadata: self.metadata,
            required_services: self.required_services,
        }
    }
}

impl CreateSessionResponse {
    pub fn for_session(session: &Session, access_token: String, livekit_url: &str) -> (r: Self)
        ensures
            r.session_id@ == session.id@,
            r.room_name@ == session.room_name@,
            r.access_token@ == access_token@,
            r.livekit_url@ == livekit_url@,
            r.status == session.status,
    {
        CreateSessionResponse {
            session_id: session.id.clone(),
            room_name: session.room_name.clone(),
            access_token,
            livekit_url: livekit_url.to_owned(),
            status: session.status,
        }
    }
}

impl SessionStatusResponse {
    /// The progress of `session`: who is there and who is still awaited.
    pub fn of_session(session: &Session) -> (r: Self)
        requires
            session.wf(),
        ensures
            r.session_id@ == session.id@,
            r.room_name@ == session.room_name@,
            r.status == session.status,
            string_views(r.ready_services@).no_duplicates(),
            string_views(r.ready_services@).to_set() == session@.ready,
            string_views(r.pending_services@) == pending_ids(session@.registered, session@.ready),
            r.created_at == session.created_at,
    {
        SessionStatusResponse {
            session_id: session.id.clone(),
            room_name: session.room_name.clone(),
            status: session.status,
            ready_services: session.get_ready_services(),
            pending_services: session.get_pending_services(),
            created_at: session.created_at,
        }
    }
}

} // verus!
