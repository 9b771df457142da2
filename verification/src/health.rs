//! The health prober: readiness classification and bounded polling.
//!
//! A probe is one HTTP exchange against the readiness endpoint; the caller
//! performs the exchange and hands in the status code it got, or nothing
//! when the transport failed. A failed or refused probe is an expected
//! condition — a backend that has not started yet — never an error.
//!
//! Polling repeats probes at a fixed interval, short-circuits on the first
//! success, and gives up after a bounded number of attempts. It is the unit
//! the supervisor depends on for readiness confirmation.

use vstd::arithmetic::mul::lemma_mul_inequality;
use vstd::arithmetic::mul::lemma_mul_is_commutative;
use vstd::prelude::*;

verus! {

/// An HTTP status code that counts as success.
pub open spec fn is_success_status(code: int) -> bool {
    200 <= code < 300
}

/// What one probe exchange means: ready exactly when a response arrived and
/// its status code is a success. Any other response, and any transport
/// failure, means not ready.
pub open spec fn probe_ready_spec(status: Option<u16>) -> bool {
    status matches Some(code) && is_success_status(code as int)
}

/// Classifies one probe exchange. `status` is the response's status code,
/// or nothing when the request failed or timed out.
pub fn probe_ready(status: Option<u16>) -> (r: bool)
    ensures
        r == probe_ready_spec(status),
{
    match status {
        Option::Some(code) => 200 <= code && code < 300,
        Option::None => false,
    }
}

/// Whether an externally managed backend answers its readiness endpoint
/// healthily. The caller probes the service port and hands in the outcome.
pub fn is_service_running(status: Option<u16>) -> (r: bool)
    ensures
        r == probe_ready_spec(status),
{
    probe_ready(status)
}

/// Whether the backend acknowledged a graceful-termination request. A
/// non-success response or a dropped connection means the negotiation
/// failed, which is not fatal: the caller proceeds to the grace period
/// regardless.
pub fn request_graceful_shutdown(status: Option<u16>) -> (r: bool)
    ensures
        r == probe_ready_spec(status),
{
    probe_ready(status)
}

/// How many probes a poll over `probes` examines: every attempt up to the
/// budget, or the whole trace when it is shorter.
pub open spec fn examined(probes: Seq<bool>, max_attempts: int) -> int {
    if probes.len() < max_attempts {
        probes.len() as int
    } else {
        max_attempts
    }
}

/// Whether any of the first `n` probes succeeded.
pub open spec fn any_ready(probes: Seq<bool>, n: int) -> bool {
    exists|i: int| 0 <= i < n && probes[i]
}

/// What a poll reports back.
#[derive(Clone, Copy, PartialEq, Eq, Structural, Debug)]
pub struct HealthCheckResult {
    /// Whether a probe succeeded before the budget ran out.
    pub ready: bool,
    /// How many probes were issued; when ready, the ordinal of the first
    /// successful one.
    pub attempt: u32,
    /// How long the poll slept in all: one interval between consecutive
    /// attempts, none after the last.
    pub waited_ms: u64,
}

/// Polls the readiness endpoint: one probe per entry of `probes` (the
/// outcomes the caller's probes produced, in order), sleeping `interval_ms`
/// between attempts, stopping at the first success, giving up after
/// `max_attempts` probes.
///
/// The result is ready exactly when a probe among the first `max_attempts`
/// succeeded; the first success ends the poll the iteration it occurs, and
/// never more than `max_attempts` probes are issued.
pub fn poll(probes: &Vec<bool>, interval_ms: u64, max_attempts: u32) -> (r: HealthCheckResult)
    requires
        interval_ms * max_attempts <= u64::MAX,
    ensures
        r.ready == any_ready(probes@, examined(probes@, max_attempts as int)),
        r.attempt <= max_attempts,
        r.attempt <= probes@.len(),
        r.ready ==> 1 <= r.attempt && probes@[r.attempt - 1] && forall|j: int|
            0 <= j < r.attempt - 1 ==> !probes@[j],
        !r.ready ==> r.attempt == examined(probes@, max_attempts as int),
        r.waited_ms == if r.attempt == 0 {
            0int
        } else {
            interval_ms * (r.attempt - 1)
        },
{
    let mut issued: u32 = 0;
    while issued < max_attempts && (issued as usize) < probes.len()
        invariant
            interval_ms * max_attempts <= u64::MAX,
            issued <= max_attempts,
            issued as int <= probes@.len(),
            forall|j: int| 0 <= j < issued ==> !probes@[j],
        decreases max_attempts - issued,
    {
        let ready = probes[issued as usize];
        proof {
            lemma_mul_inequality(issued as int, max_attempts as int, interval_ms as int);
            lemma_mul_is_commutative(issued as int, interval_ms as int);
            lemma_mul_is_commutative(max_attempts as int, interval_ms as int);
        }
        if ready {
            return HealthCheckResult {
                ready: true,
                attempt: issued + 1,
                waited_ms: interval_ms * (issued as u64),
            };
        }
        issued = issued + 1;
    }
    proof {
        if issued > 0 {
            lemma_mul_inequality(issued as int - 1, max_attempts as int, interval_ms as int);
            lemma_mul_is_commutative(issued as int - 1, interval_ms as int);
            lemma_mul_is_commutative(max_attempts as int, interval_ms as int);
        }
    }
    let waited_ms: u64 = if issued == 0 {
        0
    } else {
        interval_ms * ((issued - 1) as u64)
    };
    HealthCheckResult { ready: false, attempt: issued, waited_ms }
}

/// What a polling loop does after one probe.
#[derive(Clone, Copy, PartialEq, Eq, Structural, Debug)]
pub enum PollDecision {
    /// The probe succeeded: stop, the backend is ready.
    Ready,
    /// The probe failed and budget remains: sleep one interval, probe again.
    SleepAndRetry,
    /// The probe failed and the budget is spent: give up.
    GiveUp,
}

/// What follows one probe, as [`poll_step`] decides it.
pub open spec fn poll_step_spec(ready: bool, attempt: int, max_attempts: int) -> PollDecision {
    if ready {
        PollDecision::Ready
    } else if attempt < max_attempts {
        PollDecision::SleepAndRetry
    } else {
        PollDecision::GiveUp
    }
}

/// Decides how a polling loop goes on after its `attempt`-th probe (counting
/// from one) came back with `ready`.
pub fn poll_step(ready: bool, attempt: u32, max_attempts: u32) -> (d: PollDecision)
    ensures
        d == poll_step_spec(ready, attempt as int, max_attempts as int),
{
    if ready {
        PollDecision::Ready
    } else if attempt < max_attempts {
        PollDecision::SleepAndRetry
    } else {
        PollDecision::GiveUp
    }
}

} // verus!
