//! What a worker service needs to take part: its configuration, the
//! messages it exchanges with the session engine, and their rules.
pub mod client;
pub mod errors;
pub mod models;
