//! Session rendezvous engine: sessions, the worker registry, the event bus,
//! the per-session lifecycle monitor and the session-creation steps.
pub mod api;
pub mod clock;
pub mod concurrent_map;
pub mod config;
pub mod domain;
pub mod events;
pub mod log_hub;
pub mod monitor;
pub mod sdk;
pub mod seq_lemmas;
pub mod services;
pub mod text;
pub mod utils;
