//! Push-notification payloads and their canonical JSON text.
//!
//! A [`payload::Payload`] is built by one of three constructors, projected
//! onto a JSON document ([`json::JsonValue`]) and written out as text. What
//! each step yields is stated over the mathematical models in [`json`] and
//! [`payload`]; [`laws`] proves what holds of every payload.

pub mod json;
pub mod laws;
pub mod payload;
