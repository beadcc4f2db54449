use session_manager::domain::SessionStatus;
use session_manager::events::{EventBus, SessionEvent};

fn joined(sid: &str, wid: &str) -> SessionEvent {
    SessionEvent::MicroserviceJoined { session_id: sid.to_string(), service_id: wid.to_string() }
}

#[test]
fn publish_reaches_global_and_session_subscribers() {
    let mut bus = EventBus::new();
    let mut global = bus.subscribe_global();
    let mut session = bus.create_session_stream("s1".to_string());
    bus.publish_to_session("s1", joined("s1", "w1"));
    match global.try_recv().unwrap() {
        SessionEvent::MicroserviceJoined { service_id, .. } => assert_eq!(service_id, "w1"),
        _ => panic!("wrong event"),
    }
    match session.try_recv().unwrap() {
        SessionEvent::MicroserviceJoined { session_id, .. } => assert_eq!(session_id, "s1"),
        _ => panic!("wrong event"),
    }
}

#[test]
fn global_sees_events_of_sessions_without_subscribers() {
    let mut bus = EventBus::new();
    let mut global = bus.subscribe_global();
    bus.publish_to_session("nobody", joined("nobody", "w"));
    assert!(global.try_recv().is_ok());
    assert!(bus.get_session_stream("nobody").is_some());
}

#[test]
fn session_stream_absent_until_created() {
    let mut bus = EventBus::new();
    assert!(bus.get_session_stream("s").is_none());
    let _r = bus.create_session_stream("s".to_string());
    assert!(bus.get_session_stream("s").is_some());
    bus.cleanup_session("s");
    assert!(bus.get_session_stream("s").is_none());
}

#[test]
fn cleanup_closes_session_channel() {
    let mut bus = EventBus::new();
    let mut rx = bus.create_session_stream("s".to_string());
    bus.cleanup_session("s");
    assert!(matches!(rx.try_recv(), Err(tokio::sync::broadcast::error::TryRecvError::Closed)));
}

#[test]
fn lagging_subscriber_is_told() {
    let mut bus = EventBus::new();
    let mut rx = bus.create_session_stream("s".to_string());
    for i in 0..150 {
        bus.publish_to_session("s", joined("s", &format!("w{}", i)));
    }
    assert!(matches!(rx.try_recv(), Err(tokio::sync::broadcast::error::TryRecvError::Lagged(_))));
}

#[test]
fn participant_classification() {
    let mut bus = EventBus::new();
    let mut global = bus.subscribe_global();
    bus.publish_participant_joined("s", "session-manager-s").unwrap();
    assert!(global.try_recv().is_err());
    bus.publish_participant_joined("s", "pong-service").unwrap();
    assert!(matches!(global.try_recv().unwrap(), SessionEvent::MicroserviceJoined { .. }));
    bus.publish_participant_joined("s", "user-service").unwrap();
    assert!(matches!(global.try_recv().unwrap(), SessionEvent::ClientJoined { .. }));
    bus.publish_participant_joined("s", "alice").unwrap();
    assert!(matches!(global.try_recv().unwrap(), SessionEvent::ClientJoined { .. }));
    bus.publish_participant_left("s", "alice").unwrap();
}

#[test]
fn event_tags() {
    let e = SessionEvent::SessionStatusChanged { session_id: "s".to_string(), status: SessionStatus::Ready };
    assert_eq!(e.event_type(), "status_changed");
    assert_eq!(e.session_id(), "s");
    assert_eq!(joined("s", "w").event_type(), "microservice_joined");
}

#[test]
fn global_subscriber_receives_in_order() {
    let mut bus = EventBus::new();
    bus.publish_global(joined("s0", "early"));
    let mut global = bus.subscribe_global();
    bus.publish_to_session("s1", joined("s1", "a"));
    bus.publish_to_session("s2", joined("s2", "b"));
    let ids: Vec<String> = (0..2)
        .map(|_| match global.try_recv().unwrap() {
            SessionEvent::MicroserviceJoined { service_id, .. } => service_id,
            _ => panic!("wrong event"),
        })
        .collect();
    assert_eq!(ids, vec!["a".to_string(), "b".to_string()]);
    assert!(global.try_recv().is_err());
}

#[test]
fn session_subscriber_gets_only_its_session() {
    let mut bus = EventBus::new();
    let mut s1 = bus.subscribe_session("s1");
    bus.publish_to_session("s2", joined("s2", "b"));
    bus.publish_to_session("s1", joined("s1", "a"));
    match s1.try_recv().unwrap() {
        SessionEvent::MicroserviceJoined { service_id, .. } => assert_eq!(service_id, "a"),
        _ => panic!("wrong event"),
    }
    assert!(s1.try_recv().is_err());
}
