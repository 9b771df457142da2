use zerobyte::config::SupervisorConfig;
use zerobyte::supervisor::run;
use zerobyte::supervisor::DeploymentMode;
use zerobyte::supervisor::ExitStatus;
use zerobyte::supervisor::FailureReason;
use zerobyte::supervisor::LaunchOutcome;
use zerobyte::supervisor::ProcessCheck;
use zerobyte::supervisor::Supervisor;
use zerobyte::supervisor::SupervisorAction;
use zerobyte::supervisor::SupervisorEvent;
use zerobyte::supervisor::SupervisorState;

fn fresh() -> Supervisor {
    Supervisor::new(SupervisorConfig::default())
}

#[test]
fn launch_goes_through_starting_to_running() {
    let sup = fresh();
    let (s1, a1) = sup.step(SupervisorEvent::LaunchRequested { external_healthy: false });
    assert_eq!(s1.state, SupervisorState::Starting);
    assert_eq!(a1, SupervisorAction::LaunchChild);
    let (s2, a2) = s1.step(SupervisorEvent::LaunchFinished { outcome: LaunchOutcome::Ready });
    assert_eq!(s2.state, SupervisorState::Running);
    assert_eq!(a2, SupervisorAction::Nothing);
    assert_eq!(s2.mode, DeploymentMode::SelfManaged);
    assert_eq!(s2.port, 4096);
}

#[test]
fn external_attach_skips_spawn_entirely() {
    let sup = fresh();
    let (s1, a1) = sup.step(SupervisorEvent::LaunchRequested { external_healthy: true });
    assert_eq!(s1.state, SupervisorState::Running);
    assert_eq!(s1.mode, DeploymentMode::ExternalService);
    assert_eq!(s1.port, 4097);
    assert_eq!(a1, SupervisorAction::Nothing);
    // Whatever happens next, an external-mode supervisor demands no action.
    let (s2, a2) = s1.step(SupervisorEvent::MonitorTick {
        shutdown_signaled: false,
        check: ProcessCheck::CheckFailed,
    });
    assert_eq!(s2.state, SupervisorState::Running);
    assert_eq!(a2, SupervisorAction::Nothing);
}

#[test]
fn external_mode_shutdown_is_a_mark_and_nothing_more() {
    let sup = fresh();
    let (running, _) = sup.step(SupervisorEvent::LaunchRequested { external_healthy: true });
    let (stopped, act) = running.step(SupervisorEvent::ShutdownRequested);
    assert_eq!(stopped.state, SupervisorState::Stopped);
    assert_eq!(act, SupervisorAction::Nothing);
}

#[test]
fn spawn_failure_fails_the_session() {
    let sup = fresh();
    let (s1, _) = sup.step(SupervisorEvent::LaunchRequested { external_healthy: false });
    let (s2, a2) = s1.step(SupervisorEvent::LaunchFinished { outcome: LaunchOutcome::SpawnFailed });
    assert_eq!(s2.state, SupervisorState::Failed);
    assert_eq!(s2.failure, Some(FailureReason::LaunchError));
    assert_eq!(a2, SupervisorAction::Nothing);
}

#[test]
fn readiness_timeout_fails_the_session_and_kills_the_child() {
    let sup = fresh();
    let (s1, _) = sup.step(SupervisorEvent::LaunchRequested { external_healthy: false });
    let (s2, a2) = s1.step(SupervisorEvent::LaunchFinished { outcome: LaunchOutcome::NotReady });
    assert_eq!(s2.state, SupervisorState::Failed);
    assert_eq!(s2.failure, Some(FailureReason::ReadinessTimeout));
    assert_eq!(a2, SupervisorAction::KillChild);
}

#[test]
fn shutdown_signal_wins_even_when_the_child_exited_in_the_same_instant() {
    let sup = fresh();
    let (s1, _) = sup.step(SupervisorEvent::LaunchRequested { external_healthy: false });
    let (running, _) = s1.step(SupervisorEvent::LaunchFinished { outcome: LaunchOutcome::Ready });
    let (s2, a2) = running.step(SupervisorEvent::MonitorTick {
        shutdown_signaled: true,
        check: ProcessCheck::Exited(ExitStatus::Code(1)),
    });
    assert_eq!(s2.state, SupervisorState::StoppingGraceful);
    assert_eq!(a2, SupervisorAction::RequestGracefulStop);
}

#[test]
fn crash_within_budget_restarts_and_returns_to_running() {
    let sup = fresh();
    let (s1, _) = sup.step(SupervisorEvent::LaunchRequested { external_healthy: false });
    let (running, _) = s1.step(SupervisorEvent::LaunchFinished { outcome: LaunchOutcome::Ready });
    let (crashed, act) = running.step(SupervisorEvent::MonitorTick {
        shutdown_signaled: false,
        check: ProcessCheck::Exited(ExitStatus::Code(1)),
    });
    assert_eq!(crashed.state, SupervisorState::Crashed);
    assert_eq!(crashed.last_exit, Some(ExitStatus::Code(1)));
    assert_eq!(act, SupervisorAction::WaitBackoff);
    let (restarting, act) = crashed.step(SupervisorEvent::BackoffElapsed);
    assert_eq!(restarting.state, SupervisorState::Restarting);
    assert_eq!(restarting.restart_count, 1);
    assert_eq!(act, SupervisorAction::LaunchChild);
    let (running_again, _) =
        restarting.step(SupervisorEvent::LaunchFinished { outcome: LaunchOutcome::Ready });
    assert_eq!(running_again.state, SupervisorState::Running);
    assert_eq!(running_again.restart_count, 1);
}

#[test]
fn check_failure_counts_as_crash_with_unknown_status() {
    let sup = fresh();
    let (s1, _) = sup.step(SupervisorEvent::LaunchRequested { external_healthy: false });
    let (running, _) = s1.step(SupervisorEvent::LaunchFinished { outcome: LaunchOutcome::Ready });
    let (crashed, act) = running.step(SupervisorEvent::MonitorTick {
        shutdown_signaled: false,
        check: ProcessCheck::CheckFailed,
    });
    assert_eq!(crashed.state, SupervisorState::Crashed);
    assert_eq!(crashed.last_exit, Some(ExitStatus::Unknown));
    assert_eq!(act, SupervisorAction::WaitBackoff);
}

#[test]
fn shutdown_on_stopped_is_a_no_op_both_times() {
    let sup = fresh();
    let (running, _) = sup.step(SupervisorEvent::LaunchRequested { external_healthy: true });
    let (stopped, _) = running.step(SupervisorEvent::ShutdownRequested);
    assert_eq!(stopped.state, SupervisorState::Stopped);
    let (again, act1) = stopped.step(SupervisorEvent::ShutdownRequested);
    assert_eq!(again, stopped);
    assert_eq!(act1, SupervisorAction::Nothing);
    let (and_again, act2) = again.step(SupervisorEvent::ShutdownRequested);
    assert_eq!(and_again, stopped);
    assert_eq!(act2, SupervisorAction::Nothing);
}

#[test]
fn two_phase_shutdown_forces_a_lingering_child() {
    let sup = fresh();
    let (s1, _) = sup.step(SupervisorEvent::LaunchRequested { external_healthy: false });
    let (running, _) = s1.step(SupervisorEvent::LaunchFinished { outcome: LaunchOutcome::Ready });
    let (stopping, act) = running.step(SupervisorEvent::ShutdownRequested);
    assert_eq!(stopping.state, SupervisorState::StoppingGraceful);
    assert_eq!(act, SupervisorAction::RequestGracefulStop);
    let (forcing, act) = stopping.step(SupervisorEvent::GraceElapsed { child_exited: false });
    assert_eq!(forcing.state, SupervisorState::StoppingForced);
    assert_eq!(act, SupervisorAction::ForceKill);
    let (stopped, act) = forcing.step(SupervisorEvent::ForcedExitConfirmed);
    assert_eq!(stopped.state, SupervisorState::Stopped);
    assert_eq!(act, SupervisorAction::Nothing);
}

#[test]
fn graceful_exit_within_grace_skips_the_forced_phase() {
    let sup = fresh();
    let (s1, _) = sup.step(SupervisorEvent::LaunchRequested { external_healthy: false });
    let (running, _) = s1.step(SupervisorEvent::LaunchFinished { outcome: LaunchOutcome::Ready });
    let (stopping, _) = running.step(SupervisorEvent::ShutdownRequested);
    let (stopped, act) = stopping.step(SupervisorEvent::GraceElapsed { child_exited: true });
    assert_eq!(stopped.state, SupervisorState::Stopped);
    assert_eq!(act, SupervisorAction::Nothing);
}

#[test]
fn run_records_launch_transitions_in_order() {
    // Launch with the executable present; the readiness poll fails three
    // times and succeeds on the fourth attempt, which is one launch attempt
    // from the machine's point of view.
    let events = vec![
        SupervisorEvent::LaunchRequested { external_healthy: false },
        SupervisorEvent::LaunchFinished { outcome: LaunchOutcome::Ready },
    ];
    let report = run(fresh(), &events);
    assert_eq!(report.supervisor.state, SupervisorState::Running);
    assert_eq!(
        report.states,
        vec![SupervisorState::Idle, SupervisorState::Starting, SupervisorState::Running]
    );
    assert_eq!(
        report.actions,
        vec![SupervisorAction::LaunchChild, SupervisorAction::Nothing]
    );
}

#[test]
fn restart_budget_of_three_is_spent_by_the_fourth_crash() {
    let crash = SupervisorEvent::MonitorTick {
        shutdown_signaled: false,
        check: ProcessCheck::Exited(ExitStatus::Code(1)),
    };
    let relaunch = SupervisorEvent::LaunchFinished { outcome: LaunchOutcome::Ready };
    let events = vec![
        SupervisorEvent::LaunchRequested { external_healthy: false },
        relaunch,
        crash,
        SupervisorEvent::BackoffElapsed,
        relaunch,
        crash,
        SupervisorEvent::BackoffElapsed,
        relaunch,
        crash,
        SupervisorEvent::BackoffElapsed,
        relaunch,
        crash,
        SupervisorEvent::BackoffElapsed,
    ];
    let report = run(fresh(), &events);
    assert_eq!(report.supervisor.state, SupervisorState::Failed);
    assert_eq!(report.supervisor.restart_count, 3);
    assert_eq!(report.supervisor.failure, Some(FailureReason::RestartsExhausted));
    assert_eq!(report.supervisor.last_exit, Some(ExitStatus::Code(1)));
    // No relaunch is demanded after the budget is spent.
    assert_eq!(report.actions.last(), Some(&SupervisorAction::Nothing));
    let relaunches = report
        .actions
        .iter()
        .filter(|a| **a == SupervisorAction::LaunchChild)
        .count();
    assert_eq!(relaunches, 4); // the initial launch and the three restarts
}

#[test]
fn failed_supervisor_ignores_every_further_event() {
    let events = vec![
        SupervisorEvent::LaunchRequested { external_healthy: false },
        SupervisorEvent::LaunchFinished { outcome: LaunchOutcome::SpawnFailed },
    ];
    let report = run(fresh(), &events);
    let failed = report.supervisor;
    assert_eq!(failed.state, SupervisorState::Failed);
    for ev in [
        SupervisorEvent::LaunchRequested { external_healthy: false },
        SupervisorEvent::BackoffElapsed,
        SupervisorEvent::ShutdownRequested,
        SupervisorEvent::MonitorTick {
            shutdown_signaled: false,
            check: ProcessCheck::StillRunning,
        },
    ] {
        let (next, act) = failed.step(ev);
        assert_eq!(next, failed);
        assert_eq!(act, SupervisorAction::Nothing);
    }
}

#[test]
fn shutdown_during_crash_recovery_goes_graceful() {
    let sup = fresh();
    let (s1, _) = sup.step(SupervisorEvent::LaunchRequested { external_healthy: false });
    let (running, _) = s1.step(SupervisorEvent::LaunchFinished { outcome: LaunchOutcome::Ready });
    let (crashed, _) = running.step(SupervisorEvent::MonitorTick {
        shutdown_signaled: false,
        check: ProcessCheck::Exited(ExitStatus::Unknown),
    });
    let (stopping, act) = crashed.step(SupervisorEvent::ShutdownRequested);
    assert_eq!(stopping.state, SupervisorState::StoppingGraceful);
    assert_eq!(act, SupervisorAction::RequestGracefulStop);
}
