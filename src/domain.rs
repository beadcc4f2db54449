pub mod microservice;
pub mod session;

pub use microservice::{JoinRoomRequest, JoinRoomResponse, MicroserviceInfo, ServiceStatus};
pub use session::{Session, SessionStatus};
