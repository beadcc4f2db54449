use std::collections::HashMap;
use vstd::prelude::*;

use crate::clock::now_millis;

verus! {

/// Registry-scoped status of a worker service.
#[derive(Debug, Clone, Copy, PartialEq, Eq, Structural)]
pub enum ServiceStatus {
    Registered,
    Joining,
    Ready,
    Disconnected,
}

impl ServiceStatus {
    /// A worker may be invited into a session in these two states.
    pub open spec fn spec_available(self) -> bool {
        self == ServiceStatus::Registered || self == ServiceStatus::Ready
    }
}

/// A worker service as the registry knows it. `registered_at` is in
/// milliseconds since the Unix epoch.
#[derive(Debug, Clone)]
pub struct MicroserviceInfo {
    pub service_id: String,
    pub endpoint: String,
    pub status: ServiceStatus,
    pub registered_at: i64,
    pub metadata: HashMap<String, String>,
}

/// What a worker descriptor holds, as mathematical values.
pub struct MicroserviceInfoView {
    pub service_id: Seq<char>,
    pub endpoint: Seq<char>,
    pub status: ServiceStatus,
    pub registered_at: i64,
    pub metadata: Map<String, String>,
}

impl View for MicroserviceInfo {
    type V = MicroserviceInfoView;

    open spec fn view(&self) -> MicroserviceInfoView {
        MicroserviceInfoView {
            service_id: self.service_id@,
            endpoint: self.endpoint@,
            status: self.status,
            registered_at: self.registered_at,
            metadata: self.metadata@,
        }
    }
}

impl MicroserviceInfo {
    /// A freshly registered worker, stamped with the time now.
    pub fn new(service_id: String, endpoint: String, metadata: HashMap<String, String>) -> (r: Self)
        ensures
            r.service_id@ == service_id@,
            r.endpoint@ == endpoint@,
            r.status == ServiceStatus::Registered,
            r.metadata@ == metadata@,
    {
        MicroserviceInfo {
            service_id,
            endpoint,
            status: ServiceStatus::Registered,
            registered_at: now_millis(),
            metadata,
        }
    }

    pub fn update_status(&mut self, status: ServiceStatus)
        ensures
            final(self)@ == (MicroserviceInfoView { status, ..old(self)@ }),
    {
        self.status = status;
    }

    pub fn is_available(&self) -> (r: bool)
        ensures
            r == self.status.spec_available(),
    {
        match self.status {
            ServiceStatus::Registered | ServiceStatus::Ready => true,
            _ => false,
        }
    }

    /// A copy of the descriptor with the same view.
    pub fn duplicate(&self) -> (r: Self)
        ensures
            r@ == self@,
    {
        MicroserviceInfo {
            service_id: self.service_id.clone(),
            endpoint: self.endpoint.clone(),
            status: self.status,
            registered_at: self.registered_at,
            metadata: self.metadata.clone(),
        }
    }
}

/// Join instruction POSTed to a worker's `/join-room` endpoint.
#[derive(Debug, Clone)]
pub struct JoinRoomRequest {
    pub room_name: String,
    pub session_id: String,
    pub service_identity: String,
    pub access_token: String,
    pub livekit_url: String,
}

/// A worker's answer to a join instruction.
#[derive(Debug)]
pub struct JoinRoomResponse {
    pub success: bool,
    pub message: String,
}

} // verus!
