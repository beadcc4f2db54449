pub mod livekit_service;
pub mod microservice_registry;
pub mod session_service;

pub use microservice_registry::MicroserviceRegistry;
pub use session_service::CreateSessionRequest;
