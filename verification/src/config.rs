//! Explicit configuration for the supervisor and the lifecycle controller.
//!
//! Every tunable that the supervision logic depends on is carried in one
//! value handed over at construction; nothing is read from ambient state.

use vstd::prelude::*;

verus! {

/// Default port of a backend launched and owned by the supervisor itself.
pub const DEFAULT_SELF_PORT: u16 = 4096;

/// Default port of a backend run as an independently managed service.
pub const DEFAULT_SERVICE_PORT: u16 = 4097;

/// Default number of restarts attempted after crashes before giving up.
pub const DEFAULT_RESTART_BOUND: u32 = 3;

/// Default number of readiness probes issued while waiting for a launch.
pub const DEFAULT_READINESS_MAX_ATTEMPTS: u32 = 30;

/// Default pause between two readiness probes, in milliseconds.
pub const DEFAULT_READINESS_INTERVAL_MS: u64 = 500;

/// Default pause between two liveness checks of the child, in milliseconds.
pub const DEFAULT_MONITOR_INTERVAL_MS: u64 = 1000;

/// Default delay before a restart is attempted, in milliseconds.
pub const DEFAULT_RESTART_BACKOFF_MS: u64 = 5000;

/// Default grace period after a graceful-shutdown request, in milliseconds.
pub const DEFAULT_GRACE_PERIOD_MS: u64 = 3000;

/// Tunables of one supervision session.
#[derive(Clone, Copy, PartialEq, Eq, Structural, Debug)]
pub struct SupervisorConfig {
    /// Port assigned to a self-managed backend.
    pub self_port: u16,
    /// Port where an externally managed backend answers.
    pub service_port: u16,
    /// How many restarts are attempted after crashes before giving up.
    pub restart_bound: u32,
    /// How many readiness probes are issued while waiting for a launch.
    pub readiness_max_attempts: u32,
    /// Pause between two readiness probes, in milliseconds.
    pub readiness_interval_ms: u64,
    /// Pause between two liveness checks of the child, in milliseconds.
    pub monitor_interval_ms: u64,
    /// Delay before a restart is attempted, in milliseconds.
    pub restart_backoff_ms: u64,
    /// Grace period after a graceful-shutdown request, in milliseconds.
    pub grace_period_ms: u64,
}

impl SupervisorConfig {
    /// The configuration value all defaults make up.
    pub open spec fn default_spec() -> SupervisorConfig {
        SupervisorConfig {
            self_port: DEFAULT_SELF_PORT,
            service_port: DEFAULT_SERVICE_PORT,
            restart_bound: DEFAULT_RESTART_BOUND,
            readiness_max_attempts: DEFAULT_READINESS_MAX_ATTEMPTS,
            readiness_interval_ms: DEFAULT_READINESS_INTERVAL_MS,
            monitor_interval_ms: DEFAULT_MONITOR_INTERVAL_MS,
            restart_backoff_ms: DEFAULT_RESTART_BACKOFF_MS,
            grace_period_ms: DEFAULT_GRACE_PERIOD_MS,
        }
    }
}

impl Default for SupervisorConfig {
    /// The usual deployment values: self-managed backends on one well-known
    /// port, service deployments on the next.
    fn default() -> (c: SupervisorConfig)
        ensures
            c == SupervisorConfig::default_spec(),
    {
        SupervisorConfig {
            self_port: DEFAULT_SELF_PORT,
            service_port: DEFAULT_SERVICE_PORT,
            restart_bound: DEFAULT_RESTART_BOUND,
            readiness_max_attempts: DEFAULT_READINESS_MAX_ATTEMPTS,
            readiness_interval_ms: DEFAULT_READINESS_INTERVAL_MS,
            monitor_interval_ms: DEFAULT_MONITOR_INTERVAL_MS,
            restart_backoff_ms: DEFAULT_RESTART_BACKOFF_MS,
            grace_period_ms: DEFAULT_GRACE_PERIOD_MS,
        }
    }
}

} // verus!
