use std::collections::HashMap;

use session_manager::config::LiveKitConfig;
use session_manager::domain::{MicroserviceInfo, Session, SessionStatus};
use session_manager::services::livekit_service::{to_api_url, to_ws_url};

fn info(id: &str) -> MicroserviceInfo {
    MicroserviceInfo::new(id.to_string(), format!("http://{}:9000", id), HashMap::new())
}

fn session_with(ids: &[&str]) -> Session {
    let mut s = Session::new("s1".to_string(), "room-s1".to_string(), HashMap::new());
    for id in ids {
        s.add_microservice(info(id));
    }
    s
}

fn livekit() -> LiveKitConfig {
    LiveKitConfig {
        server_url: "ws://localhost:7880".to_string(),
        api_key: "devkey".to_string(),
        api_secret: "secret".to_string(),
    }
}

#[test]
fn new_session_is_creating_and_empty() {
    let s = Session::new("abc".to_string(), "room-abc".to_string(), HashMap::new());
    assert_eq!(s.status, SessionStatus::Creating);
    assert_eq!(s.created_at, s.updated_at);
    assert!(s.client_token.is_none());
    assert!(s.get_pending_services().is_empty());
    assert!(s.get_ready_services().is_empty());
}

#[test]
fn marking_all_workers_makes_session_ready() {
    let mut s = session_with(&["w1", "w2"]);
    s.update_status(SessionStatus::WaitingForServices);
    assert!(s.mark_service_ready("w1"));
    assert_eq!(s.status, SessionStatus::WaitingForServices);
    assert_eq!(s.get_pending_services(), vec!["w2".to_string()]);
    assert!(s.mark_service_ready("w2"));
    assert_eq!(s.status, SessionStatus::Ready);
    assert!(s.is_ready());
    assert!(s.get_pending_services().is_empty());
}

#[test]
fn marking_twice_is_a_no_op() {
    let mut s = session_with(&["w1", "w2"]);
    s.update_status(SessionStatus::WaitingForServices);
    assert!(s.mark_service_ready("w1"));
    assert!(!s.mark_service_ready("w1"));
    assert_eq!(s.get_ready_services(), vec!["w1".to_string()]);
    assert_eq!(s.status, SessionStatus::WaitingForServices);
}

#[test]
fn unknown_worker_is_not_marked() {
    let mut s = session_with(&["w1"]);
    s.update_status(SessionStatus::WaitingForServices);
    assert!(!s.mark_service_ready("stranger"));
    assert!(s.get_ready_services().is_empty());
    assert_eq!(s.status, SessionStatus::WaitingForServices);
}

#[test]
fn terminated_is_absorbing() {
    let mut s = session_with(&[]);
    s.update_status(SessionStatus::Terminated);
    s.update_status(SessionStatus::Ready);
    assert_eq!(s.status, SessionStatus::Terminated);
}

#[test]
fn workers_cannot_be_added_after_creation() {
    let mut s = session_with(&["w1"]);
    s.update_status(SessionStatus::WaitingForServices);
    s.add_microservice(info("w2"));
    assert_eq!(s.registered_microservices.len(), 1);
}

#[test]
fn handle_joined_marks_ready() {
    let mut s = session_with(&["w1"]);
    s.update_status(SessionStatus::WaitingForServices);
    s.handle_microservice_joined("w1");
    assert_eq!(s.status, SessionStatus::Ready);
}

#[test]
fn identities_of_a_session() {
    let s = session_with(&[]);
    assert_eq!(s.client_identity(), "client-s1");
    assert_eq!(s.manager_identity(), "session-manager-s1");
    let g = s.manager_grant();
    assert!(g.hidden && g.room_admin && g.room_join);
    assert_eq!(g.room, "room-s1");
    let w = s.worker_grant();
    assert!(w.can_publish_data && !w.hidden);
    assert_eq!(w.ttl_secs, 21600);
}

#[test]
fn client_token_is_minted() {
    let s = session_with(&[]);
    let t = s.generate_client_token(&livekit()).expect("token");
    assert_eq!(t.split('.').count(), 3);
    let r = s.generate_room_token(&livekit()).expect("token");
    assert_ne!(r, t);
}

#[test]
fn token_with_empty_key_fails() {
    let s = session_with(&[]);
    let mut c = livekit();
    c.api_key = String::new();
    assert!(matches!(
        s.generate_client_token(&c),
        Err(session_manager::utils::SessionManagerError::LiveKit(_))
    ));
}

#[test]
fn worker_token_needs_identity() {
    let s = session_with(&["w1"]);
    assert!(s.generate_microservice_token("", &livekit()).is_err());
    assert!(s.generate_microservice_token("w1", &livekit()).is_ok());
}

#[test]
fn duplicate_copies_session() {
    let mut s = session_with(&["w1", "w2"]);
    s.update_status(SessionStatus::WaitingForServices);
    s.mark_service_ready("w2");
    let d = s.duplicate();
    assert_eq!(d.id, s.id);
    assert_eq!(d.status, s.status);
    assert_eq!(d.get_ready_services(), vec!["w2".to_string()]);
    assert_eq!(d.get_pending_services(), vec!["w1".to_string()]);
}

#[test]
fn provider_address_conversions() {
    assert_eq!(to_api_url("ws://localhost:7880"), "http://localhost:7880");
    assert_eq!(to_api_url("wss://lk.example.com"), "https://lk.example.com");
    assert_eq!(to_api_url("http://localhost:7880"), "http://localhost:7880");
    assert_eq!(to_ws_url("http://localhost:7880"), "ws://localhost:7880");
    assert_eq!(to_ws_url("https://lk.example.com"), "wss://lk.example.com");
    assert_eq!(to_ws_url("ws://localhost:7880"), "ws://localhost:7880");
}

#[test]
fn provider_address_rewrites_every_occurrence() {
    assert_eq!(to_api_url("ws://ws://"), "http://http://");
    assert_eq!(to_api_url("ws://host/path?next=ws://other"), "http://host/path?next=http://other");
    assert_eq!(to_api_url("wss://a/wss://b"), "https://a/https://b");
    assert_eq!(to_ws_url("http://a/http://b"), "ws://a/ws://b");
    assert_eq!(to_ws_url("https://https://"), "wss://wss://");
    assert_eq!(to_api_url("http://a/ws://b"), "http://a/ws://b");
}

#[test]
fn updated_at_never_goes_back() {
    let mut s = session_with(&["w1"]);
    let created = s.created_at;
    s.update_status(SessionStatus::WaitingForServices);
    let after_status = s.updated_at;
    assert!(after_status >= created);
    assert!(s.mark_service_ready("w1"));
    assert!(s.updated_at >= after_status);
    let stamp = s.updated_at;
    assert!(!s.mark_service_ready("w1"));
    assert_eq!(s.updated_at, stamp);
    assert_eq!(s.created_at, created);
}
