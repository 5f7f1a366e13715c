//! Bounded network ingestion and SMTP transport negotiation for the
//! notification agent: size-capped body reading, safe single-entry archive
//! extraction, ordered transport fallback and the session lifecycle.

pub mod error;
pub mod bounded_read;
pub mod archive;
pub mod transport;
pub mod smtp;
pub mod fetch;
pub mod config;
pub mod session;
