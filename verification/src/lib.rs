//! A protocol bridge for driving a Godot editor automation server.
//!
//! The library maps each named editor capability to exactly one outbound
//! HTTP request (method, path, and argument encoding) and classifies the
//! upstream's answer into a success payload or a failure message. The
//! transport layers on either side — the message protocol that delivers
//! invocations and the HTTP client that executes planned requests — live
//! outside the library and exchange plain values with it.

pub mod client;
pub mod json;
pub mod router;
pub mod text;
