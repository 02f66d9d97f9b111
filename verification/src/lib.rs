//! The core of a session-aware gateway in front of a Jellyfin-compatible
//! media server: every decision that the gateway takes between reading a
//! request and answering it, as verified functions on plain values.
//!
//! The process around this library reads the environment, talks to the
//! session store and to the upstream server, and hands what it read to these
//! functions; what they return says what to send next or how to answer.

pub mod auth_header;
pub mod config;
pub mod discovery;
pub mod error;
pub mod fields;
pub mod headers;
pub mod ident;
pub mod models;
pub mod numbers;
pub mod proxy;
pub mod reply;
pub mod session;
pub mod store;
pub mod text;
pub mod upstream;
