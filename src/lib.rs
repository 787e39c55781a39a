//! Screen capture core: the recording session state machine, the
//! frame-to-container muxing pipeline, and the lifecycle coordinator that
//! keeps a session prepared ahead of the user's start signal.

pub mod capturer;
pub mod config;
pub mod encoder;
pub mod error;
pub mod events;
pub mod lifecycle;
pub mod session;
pub mod text;
pub mod timeline;
pub mod watcher;
