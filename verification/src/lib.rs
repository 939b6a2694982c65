//! Verified normalization core of a solar-gateway telemetry collector.
//!
//! The collector authenticates against the gateway with a challenge-response
//! handshake, fetches two JSON endpoints, and turns their loosely-typed
//! fields (free-text sizes, string-encoded numbers, array-as-count fields,
//! device-local clock strings) into well-typed metric records. Everything
//! here is pure computation: the surrounding binary does the HTTP calls and
//! hands the bodies and headers in as plain values.

pub mod errors;
pub mod text;
pub mod json;
pub mod normalize;
pub mod auth;
pub mod zones;
pub mod telemetry;
