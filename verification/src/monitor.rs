//! The monitoring loop's decisions.
//!
//! While the backend runs, the supervisor checks two things each iteration:
//! whether a shutdown signal is pending — always first, so that a
//! caller-initiated stop is never misreported as a crash — and whether the
//! child is still alive. The first decisive observation ends the loop.

use vstd::prelude::*;

use crate::supervisor::ExitStatus;
use crate::supervisor::ProcessCheck;

verus! {

/// What ended the wait on a running child.
#[derive(Clone, Copy, PartialEq, Eq, Structural, Debug)]
pub enum ServerEvent {
    /// The shutdown signal arrived; the backend itself is left alone here.
    Shutdown,
    /// The child is gone: it exited with the recorded status, or the
    /// liveness query itself failed and the exit status is unknown.
    Crashed(ExitStatus),
}

/// What one monitoring iteration concludes: the pending shutdown signal
/// wins over everything, a vanished child is a crash, a failed liveness
/// query is a crash with unknown status, and otherwise the loop goes on.
pub open spec fn monitor_event_spec(shutdown_signaled: bool, check: ProcessCheck) -> Option<
    ServerEvent,
> {
    if shutdown_signaled {
        Option::Some(ServerEvent::Shutdown)
    } else {
        match check {
            ProcessCheck::StillRunning => Option::None,
            ProcessCheck::Exited(status) => Option::Some(ServerEvent::Crashed(status)),
            ProcessCheck::CheckFailed => Option::Some(ServerEvent::Crashed(ExitStatus::Unknown)),
        }
    }
}

/// Decides one monitoring iteration; nothing means the wait goes on.
pub fn monitor_step(shutdown_signaled: bool, check: ProcessCheck) -> (r: Option<ServerEvent>)
    ensures
        r == monitor_event_spec(shutdown_signaled, check),
{
    if shutdown_signaled {
        Option::Some(ServerEvent::Shutdown)
    } else {
        match check {
            ProcessCheck::StillRunning => Option::None,
            ProcessCheck::Exited(status) => Option::Some(ServerEvent::Crashed(status)),
            ProcessCheck::CheckFailed => Option::Some(ServerEvent::Crashed(ExitStatus::Unknown)),
        }
    }
}

/// Replays the wait for a shutdown or a crash over the iterations'
/// observations: `signals[i]` tells whether the shutdown signal was pending
/// at iteration `i`, `checks[i]` what the liveness check reported there.
/// The result is the first decisive iteration's event and index; nothing
/// means every recorded iteration left the loop waiting.
pub fn wait_for_shutdown_or_crash(signals: &Vec<bool>, checks: &Vec<ProcessCheck>) -> (r: Option<
    (ServerEvent, usize),
>)
    requires
        signals@.len() == checks@.len(),
    ensures
        r matches Some(decision) ==> decision.1 < signals@.len() && monitor_event_spec(
            signals@[decision.1 as int],
            checks@[decision.1 as int],
        ) == Option::Some(decision.0) && forall|j: int|
            0 <= j < decision.1 ==> monitor_event_spec(signals@[j], checks@[j]) is None,
        r is None ==> forall|j: int|
            0 <= j < signals@.len() ==> monitor_event_spec(signals@[j], checks@[j]) is None,
{
    let mut i: usize = 0;
    while i < signals.len()
        invariant
            signals@.len() == checks@.len(),
            i <= signals@.len(),
            forall|j: int| 0 <= j < i ==> monitor_event_spec(signals@[j], checks@[j]) is None,
        decreases signals@.len() - i,
    {
        let decided = monitor_step(signals[i], checks[i]);
        match decided {
            Option::Some(event) => {
                return Option::Some((event, i));
            },
            Option::None => {},
        }
        i = i + 1;
    }
    Option::None
}

/// How the two-phase stop ends after the grace period.
#[derive(Clone, Copy, PartialEq, Eq, Structural, Debug)]
pub enum StopOutcome {
    /// The child was gone when re-checked: it honoured the graceful
    /// request, nothing further is done.
    GracefulExit,
    /// The child was still alive (or could not be queried): it must be
    /// terminated forcibly and its exit awaited.
    ForcedKill,
}

/// What the re-check after the grace period decides.
pub open spec fn stop_outcome_spec(check_after_grace: ProcessCheck) -> StopOutcome {
    match check_after_grace {
        ProcessCheck::Exited(_) => StopOutcome::GracefulExit,
        ProcessCheck::StillRunning => StopOutcome::ForcedKill,
        ProcessCheck::CheckFailed => StopOutcome::ForcedKill,
    }
}

/// Ends the two-phase stop: the graceful request was sent and the grace
/// period has elapsed; `check_after_grace` is what the re-check of the
/// child reported. A child that exited is left in peace; anything else is
/// killed.
pub fn stop_server_gracefully(check_after_grace: ProcessCheck) -> (r: StopOutcome)
    ensures
        r == stop_outcome_spec(check_after_grace),
{
    match check_after_grace {
        ProcessCheck::Exited(_) => StopOutcome::GracefulExit,
        ProcessCheck::StillRunning => StopOutcome::ForcedKill,
        ProcessCheck::CheckFailed => StopOutcome::ForcedKill,
    }
}

} // verus!
