use std::collections::HashMap;

use session_manager::config::LiveKitConfig;
use session_manager::domain::{MicroserviceInfo, ServiceStatus, Session, SessionStatus};
use session_manager::events::SessionEvent;
use session_manager::monitor::{LifecycleMonitor, MonitorConfig, MonitorEvent, MonitorStep};
use session_manager::services::session_service::{
    build_session, creation_event, prepare_join_notification_for, prepare_join_notifications, prepare_session,
    start_session,
};
use session_manager::services::{CreateSessionRequest, MicroserviceRegistry};

fn registry_with(ids: &[&str]) -> MicroserviceRegistry {
    let mut reg = MicroserviceRegistry::new();
    for id in ids {
        let info = MicroserviceInfo::new(id.to_string(), format!("http://{}:9000", id), HashMap::new());
        reg.register_service(info).unwrap();
    }
    reg
}

fn request(required: Option<Vec<&str>>) -> CreateSessionRequest {
    CreateSessionRequest {
        user_identity: "user-1".to_string(),
        user_name: None,
        room_name: None,
        metadata: None,
        required_services: required.map(|v| v.into_iter().map(|s| s.to_string()).collect()),
    }
}

fn livekit() -> LiveKitConfig {
    LiveKitConfig {
        server_url: "ws://localhost:7880".to_string(),
        api_key: "devkey".to_string(),
        api_secret: "secret".to_string(),
    }
}

fn monitor_for(session: &Session) -> LifecycleMonitor {
    LifecycleMonitor::new(session.duplicate(), session.manager_identity(), MonitorConfig::standard(), 0)
}

fn joined(id: &str) -> MonitorEvent {
    MonitorEvent::ParticipantJoined(id.to_string())
}

fn count_joined(step: &MonitorStep) -> usize {
    step.events.iter().filter(|e| matches!(e, SessionEvent::MicroserviceJoined { .. })).count()
}

fn count_ready(step: &MonitorStep) -> usize {
    step.events.iter().filter(|e| matches!(e, SessionEvent::SessionReady { .. })).count()
}

#[test]
fn two_workers_both_join_within_a_second() {
    let reg = registry_with(&["w1", "w2"]);
    let mut session = build_session("sa".to_string(), request(Some(vec!["w1", "w2"])), &reg);
    assert!(start_session(&mut session));
    assert_eq!(session.status, SessionStatus::WaitingForServices);
    let mut m = monitor_for(&session);
    let s1 = m.step(joined("w1"), 0);
    assert_eq!(count_joined(&s1), 1);
    assert_eq!(count_ready(&s1), 0);
    assert_eq!(m.session.status, SessionStatus::WaitingForServices);
    let s2 = m.step(joined("w2"), 1);
    assert_eq!(count_joined(&s2), 1);
    assert_eq!(count_ready(&s2), 1);
    assert_eq!(m.session.status, SessionStatus::Ready);
    let mut ready = m.session.get_ready_services();
    ready.sort();
    assert_eq!(ready, vec!["w1".to_string(), "w2".to_string()]);
    assert!(m.session.get_pending_services().is_empty());
}

#[test]
fn one_of_two_workers_never_joins() {
    let reg = registry_with(&["w1", "w2"]);
    let mut session = build_session("sb".to_string(), request(Some(vec!["w1", "w2"])), &reg);
    start_session(&mut session);
    let mut m = monitor_for(&session);
    m.step(joined("w1"), 0);
    let tick = m.step(MonitorEvent::TimerTick, 61);
    assert!(tick.retry.contains(&"w2".to_string()));
    assert!(!tick.stop);
    assert_eq!(m.session.status, SessionStatus::WaitingForServices);
}

#[test]
fn session_without_workers_is_ready_at_once() {
    let reg = registry_with(&[]);
    let mut session = prepare_session(request(None), &reg);
    assert_eq!(session.id.chars().count(), 36);
    assert_eq!(session.room_name, format!("room-{}", session.id));
    assert!(!start_session(&mut session));
    assert_eq!(session.status, SessionStatus::Ready);
    let token = session.generate_client_token(&livekit()).expect("client token");
    assert!(!token.is_empty());
}

#[test]
fn zero_required_is_ready_without_monitor() {
    let reg = registry_with(&["w1"]);
    let mut session = build_session("s0".to_string(), request(Some(vec![])), &reg);
    assert!(session.registered_microservices.is_empty());
    assert!(!start_session(&mut session));
    assert!(session.is_ready());
}

#[test]
fn proper_subset_keeps_waiting() {
    let reg = registry_with(&["w1", "w2", "w3"]);
    let mut session = build_session("sp".to_string(), request(Some(vec!["w1", "w2", "w3"])), &reg);
    start_session(&mut session);
    let mut m = monitor_for(&session);
    m.step(joined("w1"), 0);
    m.step(joined("w3"), 2);
    assert_eq!(m.session.status, SessionStatus::WaitingForServices);
    m.step(joined("w2"), 3);
    assert_eq!(m.session.status, SessionStatus::Ready);
}

#[test]
fn joining_twice_announces_once() {
    let reg = registry_with(&["w1", "w2"]);
    let mut session = build_session("st".to_string(), request(Some(vec!["w1", "w2"])), &reg);
    start_session(&mut session);
    let mut m = monitor_for(&session);
    let first = m.step(joined("w1"), 0);
    let second = m.step(joined("w1"), 5);
    assert_eq!(count_joined(&first), 1);
    assert!(second.events.is_empty());
    let third = m.step(joined("w2"), 6);
    assert_eq!(count_ready(&third), 1);
    // w2 times out, rejoins: no second readiness announcement.
    let tick = m.step(MonitorEvent::TimerTick, 100);
    assert!(tick.retry.contains(&"w2".to_string()));
    let again = m.step(joined("w2"), 101);
    assert_eq!(count_joined(&again), 1);
    assert_eq!(count_ready(&again), 0);
}

#[test]
fn worker_silent_past_timeout_is_dropped_and_retried() {
    let reg = registry_with(&["w1"]);
    let mut session = build_session("sw".to_string(), request(Some(vec!["w1"])), &reg);
    start_session(&mut session);
    let mut m = monitor_for(&session);
    m.step(joined("w1"), 10);
    let within = m.step(MonitorEvent::TimerTick, 70);
    assert!(within.retry.is_empty());
    assert!(m.workers[0].joined);
    let past = m.step(MonitorEvent::TimerTick, 71);
    assert_eq!(past.retry, vec!["w1".to_string()]);
    assert!(!m.workers[0].joined);
}

#[test]
fn heartbeat_keeps_worker() {
    let reg = registry_with(&["w1"]);
    let mut session = build_session("sh".to_string(), request(Some(vec!["w1"])), &reg);
    start_session(&mut session);
    let mut m = monitor_for(&session);
    m.step(joined("w1"), 0);
    m.step(MonitorEvent::OtherRoomEvent, 50);
    let tick = m.step(MonitorEvent::TimerTick, 100);
    assert!(tick.retry.is_empty());
    assert!(m.workers[0].joined);
}

#[test]
fn left_worker_stays_joined_until_timeout() {
    let reg = registry_with(&["w1"]);
    let mut session = build_session("sl".to_string(), request(Some(vec!["w1"])), &reg);
    start_session(&mut session);
    let mut m = monitor_for(&session);
    m.step(joined("w1"), 0);
    let left = m.step(MonitorEvent::ParticipantLeft("w1".to_string()), 1);
    assert!(left.events.is_empty());
    assert!(m.workers[0].joined);
}

#[test]
fn client_timeout_terminates_even_when_all_joined() {
    let reg = registry_with(&["w1"]);
    let mut session = build_session("sc".to_string(), request(Some(vec!["w1"])), &reg);
    start_session(&mut session);
    let mut m = monitor_for(&session);
    m.step(joined("w1"), 0);
    let c = m.step(joined("client-sc"), 1);
    assert!(matches!(c.events[0], SessionEvent::ClientJoined { .. }));
    assert_eq!(m.session.status, SessionStatus::Active);
    assert!(m.client_connected);
    m.step(MonitorEvent::ParticipantJoined("w1".to_string()), 290);
    let end = m.step(MonitorEvent::TimerTick, 302);
    assert!(end.stop);
    assert!(matches!(
        end.events[0],
        SessionEvent::SessionStatusChanged { status: SessionStatus::Terminating, .. }
    ));
    assert_eq!(m.session.status, SessionStatus::Terminating);
    let after = m.step(MonitorEvent::TimerTick, 400);
    assert!(after.stop && after.events.is_empty());
}

#[test]
fn client_leaving_does_not_terminate() {
    let reg = registry_with(&["w1"]);
    let mut session = build_session("sd".to_string(), request(Some(vec!["w1"])), &reg);
    start_session(&mut session);
    let mut m = monitor_for(&session);
    m.step(joined("client-sd"), 0);
    m.step(MonitorEvent::ParticipantLeft("client-sd".to_string()), 1);
    assert!(!m.client_connected);
    let tick = m.step(MonitorEvent::TimerTick, 1000);
    assert!(!tick.stop);
}

#[test]
fn own_identity_is_ignored() {
    let reg = registry_with(&["w1"]);
    let mut session = build_session("sm".to_string(), request(Some(vec!["w1"])), &reg);
    start_session(&mut session);
    let mut m = monitor_for(&session);
    let s = m.step(joined("session-manager-sm"), 0);
    assert!(s.events.is_empty());
    assert!(!m.client_connected);
}

#[test]
fn stream_closed_terminates() {
    let reg = registry_with(&["w1"]);
    let mut session = build_session("sx".to_string(), request(Some(vec!["w1"])), &reg);
    start_session(&mut session);
    let mut m = monitor_for(&session);
    let s = m.step(MonitorEvent::StreamClosed, 3);
    assert!(s.stop);
    assert_eq!(m.session.status, SessionStatus::Terminated);
    assert!(m.stopped);
}

#[test]
fn unavailable_and_unknown_workers_are_dropped() {
    let mut reg = registry_with(&["w1", "w2"]);
    reg.update_service_status("w2", ServiceStatus::Disconnected).unwrap();
    let session = build_session("su".to_string(), request(Some(vec!["w2", "w9", "w1"])), &reg);
    let ids: Vec<String> = session.registered_microservices.iter().map(|m| m.service_id.clone()).collect();
    assert_eq!(ids, vec!["w1".to_string()]);
}

#[test]
fn join_notifications_for_each_worker() {
    let reg = registry_with(&["w1", "w2"]);
    let session = build_session("sn".to_string(), request(Some(vec!["w2", "w1"])), &reg);
    let plan = prepare_join_notifications(&session, &livekit(), "ws://localhost:7880").unwrap();
    assert_eq!(plan.len(), 2);
    assert_eq!(plan[0].endpoint, "http://w2:9000");
    assert_eq!(plan[0].request.service_identity, "w2");
    assert_eq!(plan[1].request.room_name, "room-sn");
    assert_eq!(plan[1].request.session_id, "sn");
    assert!(!plan[1].request.access_token.is_empty());
}

#[test]
fn creation_event_carries_credential() {
    let reg = registry_with(&[]);
    let session = build_session("se".to_string(), request(None), &reg);
    let ev = creation_event(&session, &"tok".to_string(), "ws://x");
    match ev {
        SessionEvent::SessionCreated { session_id, room_name, access_token, livekit_url } => {
            assert_eq!(session_id, "se");
            assert_eq!(room_name, "room-se");
            assert_eq!(access_token, "tok");
            assert_eq!(livekit_url, "ws://x");
        }
        _ => panic!("wrong event"),
    }
}

#[test]
fn no_join_instructions_without_workers() {
    let reg = registry_with(&[]);
    let session = build_session("sz".to_string(), request(None), &reg);
    let plan = prepare_join_notifications(&session, &livekit(), "ws://localhost:7880").unwrap();
    assert!(plan.is_empty());
}

#[test]
fn retry_instruction_for_one_worker() {
    let reg = registry_with(&["w1", "w2"]);
    let session = build_session("sr".to_string(), request(Some(vec!["w1", "w2"])), &reg);
    let n = prepare_join_notification_for(&session, "w2", &livekit(), "ws://x").unwrap().unwrap();
    assert_eq!(n.endpoint, "http://w2:9000");
    assert_eq!(n.request.service_identity, "w2");
    assert!(prepare_join_notification_for(&session, "w9", &livekit(), "ws://x").unwrap().is_none());
}

#[test]
fn prepared_session_keeps_metadata() {
    let reg = registry_with(&[]);
    let mut req = request(None);
    let mut md = HashMap::new();
    md.insert("k".to_string(), "v".to_string());
    req.metadata = Some(md);
    req.room_name = Some("lobby".to_string());
    let session = prepare_session(req, &reg);
    assert_eq!(session.room_name, "lobby");
    assert_eq!(session.metadata.get("k").map(|s| s.as_str()), Some("v"));
    assert!(session.client_token.is_none());
}
