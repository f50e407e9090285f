//! A verified core for an HTTP-to-TCP JSON-RPC bridge.
//!
//! The bridge accepts an RPC method name and a list of JSON parameters,
//! frames them as a newline-terminated JSON-RPC 2.0 request for a
//! line-oriented backend, accumulates the backend's reply up to the first
//! newline, and decodes it into a response value. The modules here hold
//! the framing, accumulation and decoding logic together with the
//! HTTP-facing response shaping; the sockets and the HTTP server sit
//! outside the library and only exchange plain values with it.

pub mod bridge;
pub mod front;
pub mod jsonio;
pub mod line;
pub mod wire;
