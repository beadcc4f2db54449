use std::collections::HashMap;

use session_manager::sdk::client::{
    extract_port_from_endpoint, joined_response, registration_error, registration_request, registration_url,
};
use session_manager::sdk::errors::MicroserviceError;
use session_manager::sdk::models::{JoinRoomRequest, MicroserviceConfig};

fn config() -> MicroserviceConfig {
    MicroserviceConfig::new(
        "http://localhost:8080".to_string(),
        "pong".to_string(),
        "http://localhost:3001".to_string(),
    )
}

#[test]
fn config_builders() {
    let c = config();
    assert_eq!(c.request_timeout_secs, 30);
    assert!(c.metadata.is_empty());
    let mut m = HashMap::new();
    m.insert("k".to_string(), "v".to_string());
    let c = c.with_metadata(m).with_timeout(5);
    assert_eq!(c.request_timeout_secs, 5);
    assert_eq!(c.metadata.get("k").map(|s| s.as_str()), Some("v"));
    assert_eq!(c.service_id, "pong");
}

#[test]
fn registration_message() {
    let c = config();
    assert_eq!(registration_url(&c), "http://localhost:8080/api/v1/microservices/register");
    let r = registration_request(&c);
    assert!(r.metadata.is_none());
    assert_eq!(r.endpoint, "http://localhost:3001");
    let mut m = HashMap::new();
    m.insert("k".to_string(), "v".to_string());
    let r = registration_request(&c.with_metadata(m));
    assert!(r.metadata.is_some());
}

#[test]
fn endpoint_ports() {
    assert_eq!(extract_port_from_endpoint("http://localhost:3001").unwrap(), 3001);
    assert_eq!(extract_port_from_endpoint("http://localhost").unwrap(), 80);
    assert_eq!(extract_port_from_endpoint("https://example.com").unwrap(), 443);
    assert_eq!(extract_port_from_endpoint("http://localhost:80").unwrap(), 80);
    match extract_port_from_endpoint("ftp://host:21") {
        Err(MicroserviceError::ConfigurationError(m)) => assert_eq!(m, "Unknown URL scheme"),
        _ => panic!("wrong result"),
    }
    assert!(matches!(extract_port_from_endpoint("not a url"), Err(MicroserviceError::ConfigurationError(_))));
}

#[test]
fn registration_errors() {
    match registration_error(500, "raw".to_string(), Some("parsed".to_string())) {
        MicroserviceError::SessionManagerError { status, message } => {
            assert_eq!(status, 500);
            assert_eq!(message, "parsed");
        }
        _ => panic!("wrong error"),
    }
    match registration_error(404, "raw".to_string(), None) {
        MicroserviceError::SessionManagerError { message, .. } => assert_eq!(message, "raw"),
        _ => panic!("wrong error"),
    }
}

#[test]
fn join_reply() {
    let req = JoinRoomRequest {
        room_name: "r".to_string(),
        session_id: "s".to_string(),
        service_identity: "pong".to_string(),
        access_token: "t".to_string(),
        livekit_url: "ws://x".to_string(),
    };
    let resp = joined_response(&req);
    assert!(resp.success);
    assert_eq!(resp.session_id, "s");
    assert_eq!(resp.service_id, "pong");
}
