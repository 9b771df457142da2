//! Verified core of a backend-process supervisor.
//!
//! The library contains the decision logic of a supervisor that keeps exactly
//! one healthy backend instance reachable at a known endpoint: a lifecycle
//! state machine with bounded crash recovery and a two-phase shutdown
//! protocol, the readiness-polling rules, the classification of service
//! status queries, and the construction of the privileged command scripts.
//! Everything that touches the outside world (HTTP probes, process spawning,
//! elevation, the clock) stays with the caller, which feeds its observations
//! in as plain values and carries the returned decisions out.

pub mod config;
pub mod endpoints;
pub mod health;
pub mod lifecycle;
pub mod logging;
pub mod monitor;
pub mod scripts;
pub mod service_query;
pub mod sidecar;
pub mod supervisor;
pub mod text;
