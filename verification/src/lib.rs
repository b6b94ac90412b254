//! Core logic of a local reverse-proxy pair (HTTP and WebSocket) that forwards
//! traffic from a sandboxed client to a single configurable backend origin.
//!
//! The verified library holds the decision logic: settings and their updates,
//! URL rewriting, request/response forwarding plans, the WebSocket relay state
//! machine, the trust policy for the outbound TLS leg, and the supervisor's
//! start/stop/restart lifecycle. The surrounding binary performs the actual
//! socket, TLS and HTTP work and consults this library for every decision.

pub mod client;
pub mod forward;
pub mod relay;
pub mod settings;
pub mod supervisor;
pub mod tls;
pub mod urls;
