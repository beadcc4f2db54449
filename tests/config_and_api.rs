use std::collections::HashMap;

use session_manager::api::handlers::{error_response, error_status};
use session_manager::api::models::{RegisterMicroserviceRequest, RegisterMicroserviceResponse};
use session_manager::config::{parse_port, AppConfig, EnvOverrides};
use session_manager::domain::ServiceStatus;
use session_manager::utils::SessionManagerError;

fn no_env() -> EnvOverrides {
    EnvOverrides {
        livekit_server_url: None,
        livekit_api_key: None,
        livekit_api_secret: None,
        server_host: None,
        server_port: None,
        vector_log_enabled: None,
        vector_log_endpoint: None,
    }
}

#[test]
fn defaults_without_environment() {
    let c = AppConfig::defaults(&no_env());
    assert_eq!(c.server.port, 8080);
    assert_eq!(c.livekit.api_key, "devkey");
    assert_eq!(c.livekit.api_secret, "secret");
    assert!(c.vector_log.enabled);
    assert_eq!(c.vector_log.endpoint, "localhost:9000");
}

#[test]
fn environment_overrides() {
    let mut env = no_env();
    env.server_port = Some("9090".to_string());
    env.livekit_server_url = Some("wss://lk".to_string());
    env.vector_log_enabled = Some("false".to_string());
    let c = AppConfig::defaults(&no_env()).apply_overrides(&env).unwrap();
    assert_eq!(c.server.port, 9090);
    assert_eq!(c.livekit.server_url, "wss://lk");
    assert!(!c.vector_log.enabled);
}

#[test]
fn bad_port_is_a_configuration_error() {
    let mut env = no_env();
    env.server_port = Some("80a".to_string());
    let r = AppConfig::defaults(&no_env()).apply_overrides(&env);
    assert!(matches!(r, Err(SessionManagerError::Configuration(_))));
}

#[test]
fn port_parsing() {
    assert_eq!(parse_port("8080"), Some(8080));
    assert_eq!(parse_port("+65535"), Some(65535));
    assert_eq!(parse_port("65536"), None);
    assert_eq!(parse_port(""), None);
    assert_eq!(parse_port("+"), None);
    assert_eq!(parse_port("-1"), None);
    assert_eq!(parse_port("0"), Some(0));
}

#[test]
fn error_statuses() {
    assert_eq!(error_status(&SessionManagerError::SessionNotFound { session_id: "x".to_string() }), (404, "SessionNotFound"));
    assert_eq!(error_status(&SessionManagerError::InvalidRequest("x".to_string())), (400, "InvalidRequest"));
    assert_eq!(error_status(&SessionManagerError::MicroserviceJoinTimeout), (408, "Timeout"));
    assert_eq!(error_status(&SessionManagerError::Configuration("x".to_string())), (500, "Configuration"));
    assert_eq!(error_status(&SessionManagerError::LiveKit("x".to_string())), (500, "InternalError"));
    let (code, body) = error_response(&SessionManagerError::SessionNotFound { session_id: "abc".to_string() }, 7);
    assert_eq!(code, 404);
    assert_eq!(body.message, "Session not found: abc");
    assert_eq!(body.timestamp, 7);
}

#[test]
fn registration_via_api() {
    let req = RegisterMicroserviceRequest { service_id: "svc".to_string(), endpoint: "http://svc:1".to_string(), metadata: None };
    let info = req.into_info();
    assert_eq!(info.status, ServiceStatus::Registered);
    assert!(info.metadata.is_empty());
    let resp = RegisterMicroserviceResponse::registered("svc".to_string());
    assert!(resp.success);
    assert_eq!(resp.message, "Microservice registered successfully");
    let _ = HashMap::<String, String>::new();
}
