//! Launch and stop plans for the host-owned sidecar deployment.
//!
//! When the host brings the backend up it first looks for an instance that
//! already answers — an externally managed service on its own port, or a
//! leftover local instance — and only spawns a sidecar child when neither
//! exists, so that at most one healthy instance per port is ever reachable.
//! When the host shuts down, it never touches a backend it does not own.

use vstd::prelude::*;

use crate::config::SupervisorConfig;

verus! {

/// How the backend is brought up.
#[derive(Clone, Copy, PartialEq, Eq, Structural, Debug)]
pub enum LaunchPlan {
    /// An externally managed service answers healthily: attach to it on the
    /// service port and spawn nothing.
    AttachService,
    /// A local instance already answers on the self-managed port: use it
    /// and spawn nothing.
    AttachExisting,
    /// Nothing answers: spawn the sidecar child on the self-managed port.
    SpawnSidecar,
}

/// Which plan the two pre-launch probes decide: the service probe is
/// consulted first, then the local probe, and a spawn happens only when
/// both found nothing.
pub open spec fn launch_plan_spec(service_healthy: bool, local_healthy: bool) -> LaunchPlan {
    if service_healthy {
        LaunchPlan::AttachService
    } else if local_healthy {
        LaunchPlan::AttachExisting
    } else {
        LaunchPlan::SpawnSidecar
    }
}

/// The port a plan settles on.
pub open spec fn plan_port_spec(config: SupervisorConfig, plan: LaunchPlan) -> u16 {
    if plan is AttachService {
        config.service_port
    } else {
        config.self_port
    }
}

/// Decides how to bring the backend up. `service_healthy` is the outcome
/// of the readiness probe against the service port, `local_healthy` the
/// outcome of the probe against the self-managed port; both were taken
/// before anything is spawned. Returns the plan and the port the backend
/// will be reachable on.
pub fn start_sidecar(config: &SupervisorConfig, service_healthy: bool, local_healthy: bool) -> (r:
    (LaunchPlan, u16))
    ensures
        r.0 == launch_plan_spec(service_healthy, local_healthy),
        r.1 == plan_port_spec(*config, r.0),
{
    if service_healthy {
        (LaunchPlan::AttachService, config.service_port)
    } else if local_healthy {
        (LaunchPlan::AttachExisting, config.self_port)
    } else {
        (LaunchPlan::SpawnSidecar, config.self_port)
    }
}

/// How the backend is torn down.
#[derive(Clone, Copy, PartialEq, Eq, Structural, Debug)]
pub enum StopPlan {
    /// The backend is the externally managed service: leave it running, the
    /// host never stops a process it did not spawn.
    LeaveService,
    /// No child is held: there is nothing to stop.
    NoChild,
    /// The owned child is terminated; when the backend acknowledged the
    /// graceful request, it is granted a moment to exit first.
    Terminate { wait_first: bool },
}

/// Which plan the shutdown state decides: an attached service is left
/// alone, a missing child makes the stop a no-op, and an owned child is
/// terminated — after a short wait when the graceful request was
/// acknowledged.
pub open spec fn stop_plan_spec(
    using_service: bool,
    has_child: bool,
    graceful_acknowledged: bool,
) -> StopPlan {
    if using_service {
        StopPlan::LeaveService
    } else if !has_child {
        StopPlan::NoChild
    } else {
        StopPlan::Terminate { wait_first: graceful_acknowledged }
    }
}

/// Decides how to tear the backend down. `graceful_acknowledged` is
/// whether the backend acknowledged the graceful-termination request; it
/// matters only when an owned child is actually terminated.
pub fn stop_sidecar(using_service: bool, has_child: bool, graceful_acknowledged: bool) -> (r:
    StopPlan)
    ensures
        r == stop_plan_spec(using_service, has_child, graceful_acknowledged),
{
    if using_service {
        StopPlan::LeaveService
    } else if !has_child {
        StopPlan::NoChild
    } else {
        StopPlan::Terminate { wait_first: graceful_acknowledged }
    }
}

} // verus!
