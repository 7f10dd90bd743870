//! Remote-control core for a television's JSON-over-WebSocket protocol.
//!
//! The library is free of I/O: it decides what to send, how long to wait and
//! what a reply means, and the program around it moves the bytes.
pub mod config;
pub mod controls;
pub mod json;
pub mod keepalive;
pub mod protocol;
pub mod session;
pub mod text;
pub mod wake;
