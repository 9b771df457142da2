//! The supervisor state machine.
//!
//! One supervisor owns the lifecycle of at most one backend process: it
//! launches the backend (or attaches to an externally managed instance),
//! confirms readiness, watches for crashes, restarts a bounded number of
//! times, and tears the backend down in two phases, graceful then forced.
//!
//! The machine is purely a decision procedure: the caller performs the
//! observable work (spawning, probing, sleeping, killing) that each returned
//! [`SupervisorAction`] names, and reports what it saw as the next
//! [`SupervisorEvent`].

use vstd::prelude::*;

use crate::config::SupervisorConfig;

verus! {

/// Whether the supervisor owns its backend process or only attaches to one.
#[derive(Clone, Copy, PartialEq, Eq, Structural, Debug)]
pub enum DeploymentMode {
    /// The backend is a child process spawned and owned by the supervisor.
    SelfManaged,
    /// The backend runs as an independently managed service; the supervisor
    /// observes it but never owns or terminates it.
    ExternalService,
}

/// The lifecycle states of one supervision session.
#[derive(Clone, Copy, PartialEq, Eq, Structural, Debug)]
pub enum SupervisorState {
    /// No backend is under management yet.
    Idle,
    /// A launch is underway: the child is being spawned and probed for
    /// readiness.
    Starting,
    /// A healthy backend is reachable.
    Running,
    /// The child exited unexpectedly; recovery has not been decided yet.
    Crashed,
    /// A restart is underway after a crash.
    Restarting,
    /// A graceful termination request has been issued; the grace period is
    /// running.
    StoppingGraceful,
    /// The grace period expired with the child still alive; a forced
    /// termination is underway.
    StoppingForced,
    /// Terminal: supervision ended by request. Further shutdown requests are
    /// no-ops.
    Stopped,
    /// Terminal: supervision ended in error; no further recovery is
    /// attempted.
    Failed,
}

/// Why a session ended in [`SupervisorState::Failed`].
#[derive(Clone, Copy, PartialEq, Eq, Structural, Debug)]
pub enum FailureReason {
    /// The backend executable could not be spawned.
    LaunchError,
    /// The backend started but never answered the readiness probe in time.
    ReadinessTimeout,
    /// The backend crashed once more after the restart budget was spent.
    RestartsExhausted,
}

/// The exit status of a terminated child, as far as it could be observed.
#[derive(Clone, Copy, PartialEq, Eq, Structural, Debug)]
pub enum ExitStatus {
    /// The child exited with this code.
    Code(i32),
    /// The child is gone but no exit code could be obtained (terminated by
    /// signal, or the status query itself failed).
    Unknown,
}

/// What one liveness check of the child reported.
#[derive(Clone, Copy, PartialEq, Eq, Structural, Debug)]
pub enum ProcessCheck {
    /// The child is still alive.
    StillRunning,
    /// The child has exited with the given status.
    Exited(ExitStatus),
    /// The status query itself failed; treated as a crash with unknown exit
    /// status, not as a fatal error.
    CheckFailed,
}

/// How a launch attempt (spawn followed by readiness polling) ended.
#[derive(Clone, Copy, PartialEq, Eq, Structural, Debug)]
pub enum LaunchOutcome {
    /// The child was spawned and answered the readiness probe.
    Ready,
    /// The child could not be spawned at all.
    SpawnFailed,
    /// The child was spawned but exhausted the readiness budget; it is still
    /// alive and must be killed.
    NotReady,
}

/// An observation reported to the supervisor by its caller.
#[derive(Clone, Copy, PartialEq, Eq, Structural, Debug)]
pub enum SupervisorEvent {
    /// The host asked for the backend to be brought up. `external_healthy`
    /// carries the result of the probe against the external service port,
    /// taken before anything is spawned.
    LaunchRequested { external_healthy: bool },
    /// A launch attempt requested by [`SupervisorAction::LaunchChild`]
    /// finished.
    LaunchFinished { outcome: LaunchOutcome },
    /// One iteration of the monitoring loop: whether a shutdown signal is
    /// pending (checked first, every iteration), and what the liveness check
    /// reported.
    MonitorTick { shutdown_signaled: bool, check: ProcessCheck },
    /// The host asked for the backend to be torn down.
    ShutdownRequested,
    /// The restart backoff delay has elapsed. When no backoff was requested
    /// the caller reports this immediately.
    BackoffElapsed,
    /// The grace period after a graceful-shutdown request has elapsed;
    /// `child_exited` tells whether the child was gone by then.
    GraceElapsed { child_exited: bool },
    /// The forced termination completed and the child's exit was confirmed.
    ForcedExitConfirmed,
}

/// The observable work the caller must perform after a step.
#[derive(Clone, Copy, PartialEq, Eq, Structural, Debug)]
pub enum SupervisorAction {
    /// Nothing to do.
    Nothing,
    /// Spawn the backend and poll its readiness endpoint; report the result
    /// as [`SupervisorEvent::LaunchFinished`].
    LaunchChild,
    /// Terminate a child that never became ready.
    KillChild,
    /// Sleep for the restart backoff delay, then report
    /// [`SupervisorEvent::BackoffElapsed`].
    WaitBackoff,
    /// Send the graceful termination request to the control endpoint, wait
    /// the grace period regardless of the response, then report
    /// [`SupervisorEvent::GraceElapsed`].
    RequestGracefulStop,
    /// Terminate the child unconditionally, block until its exit is
    /// confirmed, then report [`SupervisorEvent::ForcedExitConfirmed`].
    ForceKill,
}

/// The supervisor: the current lifecycle state and everything the next
/// decision depends on.
#[derive(Clone, Copy, PartialEq, Eq, Structural, Debug)]
pub struct Supervisor {
    /// Current lifecycle state.
    pub state: SupervisorState,
    /// Whether the backend is a child of the supervisor or an external
    /// service it attached to.
    pub mode: DeploymentMode,
    /// The configuration handed over at construction.
    pub config: SupervisorConfig,
    /// The port where the backend is (to be) reachable.
    pub port: u16,
    /// How many restarts have been attempted this session. Monotone: a crash
    /// never resets it.
    pub restart_count: u32,
    /// The last observed exit status of the child, if it ever exited.
    pub last_exit: Option<ExitStatus>,
    /// Why the session failed, once it has.
    pub failure: Option<FailureReason>,
}

impl Supervisor {
    /// The state a fresh supervisor starts in.
    pub open spec fn initial_spec(config: SupervisorConfig) -> Supervisor {
        Supervisor {
            state: SupervisorState::Idle,
            mode: DeploymentMode::SelfManaged,
            config: config,
            port: config.self_port,
            restart_count: 0,
            last_exit: Option::None,
            failure: Option::None,
        }
    }

    /// Well-formedness: what holds of a fresh supervisor and is preserved by
    /// every step.
    pub open spec fn wf(self) -> bool {
        &&& self.restart_count <= self.config.restart_bound
        &&& (self.state is Idle ==> self.restart_count == 0 && self.last_exit is None)
        &&& (self.failure is Some <==> self.state is Failed)
        &&& (self.mode is ExternalService ==> self.restart_count == 0 && (self.state is Running
            || self.state is Stopped))
        &&& (self.state is Restarting ==> self.restart_count >= 1)
    }

    /// Builds a supervisor in its initial state.
    pub fn new(config: SupervisorConfig) -> (s: Supervisor)
        ensures
            s == Supervisor::initial_spec(config),
            s.wf(),
    {
        Supervisor {
            state: SupervisorState::Idle,
            mode: DeploymentMode::SelfManaged,
            config: config,
            port: config.self_port,
            restart_count: 0,
            last_exit: Option::None,
            failure: Option::None,
        }
    }
}

/// What a shutdown request does in each state.
///
/// - In terminal states it is a no-op: repeated shutdown of a stopped
///   supervisor neither errors nor kills anything twice.
/// - In external mode the supervisor marks itself stopped and nothing more:
///   it never terminates a process it did not spawn.
/// - While the backend runs, crashed, or is restarting, the two-phase
///   shutdown begins with the graceful request.
/// - During a launch attempt the request is left pending; it is observed by
///   the first monitoring iteration after the launch settles.
pub open spec fn shutdown_spec(s: Supervisor) -> (Supervisor, SupervisorAction) {
    match s.state {
        SupervisorState::Stopped => (s, SupervisorAction::Nothing),
        SupervisorState::Failed => (s, SupervisorAction::Nothing),
        SupervisorState::Idle => (
            Supervisor { state: SupervisorState::Stopped, ..s },
            SupervisorAction::Nothing,
        ),
        SupervisorState::Running => if s.mode is ExternalService {
            (Supervisor { state: SupervisorState::Stopped, ..s }, SupervisorAction::Nothing)
        } else {
            (
                Supervisor { state: SupervisorState::StoppingGraceful, ..s },
                SupervisorAction::RequestGracefulStop,
            )
        },
        SupervisorState::Crashed => (
            Supervisor { state: SupervisorState::StoppingGraceful, ..s },
            SupervisorAction::RequestGracefulStop,
        ),
        SupervisorState::Restarting => (
            Supervisor { state: SupervisorState::StoppingGraceful, ..s },
            SupervisorAction::RequestGracefulStop,
        ),
        SupervisorState::Starting => (s, SupervisorAction::Nothing),
        SupervisorState::StoppingGraceful => (s, SupervisorAction::Nothing),
        SupervisorState::StoppingForced => (s, SupervisorAction::Nothing),
    }
}

/// The transition function: next supervisor and required action for one
/// observed event. Events that make no sense in the current state are
/// ignored.
pub open spec fn step_spec(s: Supervisor, ev: SupervisorEvent) -> (Supervisor, SupervisorAction) {
    match ev {
        SupervisorEvent::LaunchRequested { external_healthy } => if s.state is Idle {
            if external_healthy {
                (
                    Supervisor {
                        state: SupervisorState::Running,
                        mode: DeploymentMode::ExternalService,
                        port: s.config.service_port,
                        ..s
                    },
                    SupervisorAction::Nothing,
                )
            } else {
                (
                    Supervisor { state: SupervisorState::Starting, ..s },
                    SupervisorAction::LaunchChild,
                )
            }
        } else {
            (s, SupervisorAction::Nothing)
        },
        SupervisorEvent::LaunchFinished { outcome } => if s.state is Starting || s.state
            is Restarting {
            match outcome {
                LaunchOutcome::Ready => (
                    Supervisor { state: SupervisorState::Running, ..s },
                    SupervisorAction::Nothing,
                ),
                LaunchOutcome::SpawnFailed => (
                    Supervisor {
                        state: SupervisorState::Failed,
                        failure: Option::Some(FailureReason::LaunchError),
                        ..s
                    },
                    SupervisorAction::Nothing,
                ),
                LaunchOutcome::NotReady => (
                    Supervisor {
                        state: SupervisorState::Failed,
                        failure: Option::Some(FailureReason::ReadinessTimeout),
                        ..s
                    },
                    SupervisorAction::KillChild,
                ),
            }
        } else {
            (s, SupervisorAction::Nothing)
        },
        SupervisorEvent::MonitorTick { shutdown_signaled, check } => if s.state is Running
            && s.mode is SelfManaged {
            if shutdown_signaled {
                (
                    Supervisor { state: SupervisorState::StoppingGraceful, ..s },
                    SupervisorAction::RequestGracefulStop,
                )
            } else {
                match check {
                    ProcessCheck::StillRunning => (s, SupervisorAction::Nothing),
                    ProcessCheck::Exited(status) => crash_spec(s, status),
                    ProcessCheck::CheckFailed => crash_spec(s, ExitStatus::Unknown),
                }
            }
        } else {
            (s, SupervisorAction::Nothing)
        },
        SupervisorEvent::ShutdownRequested => shutdown_spec(s),
        SupervisorEvent::BackoffElapsed => if s.state is Crashed {
            if s.restart_count < s.config.restart_bound {
                (
                    Supervisor {
                        state: SupervisorState::Restarting,
                        restart_count: (s.restart_count + 1) as u32,
                        ..s
                    },
                    SupervisorAction::LaunchChild,
                )
            } else {
                (
                    Supervisor {
                        state: SupervisorState::Failed,
                        failure: Option::Some(FailureReason::RestartsExhausted),
                        ..s
                    },
                    SupervisorAction::Nothing,
                )
            }
        } else {
            (s, SupervisorAction::Nothing)
        },
        SupervisorEvent::GraceElapsed { child_exited } => if s.state is StoppingGraceful {
            if child_exited {
                (Supervisor { state: SupervisorState::Stopped, ..s }, SupervisorAction::Nothing)
            } else {
                (
                    Supervisor { state: SupervisorState::StoppingForced, ..s },
                    SupervisorAction::ForceKill,
                )
            }
        } else {
            (s, SupervisorAction::Nothing)
        },
        SupervisorEvent::ForcedExitConfirmed => if s.state is StoppingForced {
            (Supervisor { state: SupervisorState::Stopped, ..s }, SupervisorAction::Nothing)
        } else {
            (s, SupervisorAction::Nothing)
        },
    }
}

/// A crash was observed while running: record the exit status and either
/// schedule a restart (budget permitting) or announce that the budget is
/// spent. The counter itself moves only on the transition out of `Crashed`.
pub open spec fn crash_spec(s: Supervisor, status: ExitStatus) -> (Supervisor, SupervisorAction) {
    (
        Supervisor { state: SupervisorState::Crashed, last_exit: Option::Some(status), ..s },
        if s.restart_count < s.config.restart_bound {
            SupervisorAction::WaitBackoff
        } else {
            SupervisorAction::Nothing
        },
    )
}

impl Supervisor {
    /// Feeds one observed event to the supervisor and returns the successor
    /// together with the action the caller must now perform.
    pub fn step(self, ev: SupervisorEvent) -> (r: (Supervisor, SupervisorAction))
        ensures
            r == step_spec(self, ev),
            self.wf() ==> r.0.wf(),
            r.0.restart_count >= self.restart_count,
            r.0.config == self.config,
    {
        match ev {
            SupervisorEvent::LaunchRequested { external_healthy } => {
                if matches!(self.state, SupervisorState::Idle) {
                    if external_healthy {
                        (
                            Supervisor {
                                state: SupervisorState::Running,
                                mode: DeploymentMode::ExternalService,
                                port: self.config.service_port,
                                ..self
                            },
                            SupervisorAction::Nothing,
                        )
                    } else {
                        (
                            Supervisor { state: SupervisorState::Starting, ..self },
                            SupervisorAction::LaunchChild,
                        )
                    }
                } else {
                    (self, SupervisorAction::Nothing)
                }
            },
            SupervisorEvent::LaunchFinished { outcome } => {
                if matches!(self.state, SupervisorState::Starting | SupervisorState::Restarting) {
                    match outcome {
                        LaunchOutcome::Ready => (
                            Supervisor { state: SupervisorState::Running, ..self },
                            SupervisorAction::Nothing,
                        ),
                        LaunchOutcome::SpawnFailed => (
                            Supervisor {
                                state: SupervisorState::Failed,
                                failure: Option::Some(FailureReason::LaunchError),
                                ..self
                            },
                            SupervisorAction::Nothing,
                        ),
                        LaunchOutcome::NotReady => (
                            Supervisor {
                                state: SupervisorState::Failed,
                                failure: Option::Some(FailureReason::ReadinessTimeout),
                                ..self
                            },
                            SupervisorAction::KillChild,
                        ),
                    }
                } else {
                    (self, SupervisorAction::Nothing)
                }
            },
            SupervisorEvent::MonitorTick { shutdown_signaled, check } => {
                if matches!(self.state, SupervisorState::Running) && matches!(
                    self.mode,
                    DeploymentMode::SelfManaged,
                ) {
                    if shutdown_signaled {
                        (
                            Supervisor { state: SupervisorState::StoppingGraceful, ..self },
                            SupervisorAction::RequestGracefulStop,
                        )
                    } else {
                        match check {
                            ProcessCheck::StillRunning => (self, SupervisorAction::Nothing),
                            ProcessCheck::Exited(status) => self.crash(status),
                            ProcessCheck::CheckFailed => self.crash(ExitStatus::Unknown),
                        }
                    }
                } else {
                    (self, SupervisorAction::Nothing)
                }
            },
            SupervisorEvent::ShutdownRequested => self.shutdown(),
            SupervisorEvent::BackoffElapsed => {
                if matches!(self.state, SupervisorState::Crashed) {
                    if self.restart_count < self.config.restart_bound {
                        (
                            Supervisor {
                                state: SupervisorState::Restarting,
                                restart_count: self.restart_count + 1,
                                ..self
                            },
                            SupervisorAction::LaunchChild,
                        )
                    } else {
                        (
                            Supervisor {
                                state: SupervisorState::Failed,
                                failure: Option::Some(FailureReason::RestartsExhausted),
                                ..self
                            },
                            SupervisorAction::Nothing,
                        )
                    }
                } else {
                    (self, SupervisorAction::Nothing)
                }
            },
            SupervisorEvent::GraceElapsed { child_exited } => {
                if matches!(self.state, SupervisorState::StoppingGraceful) {
                    if child_exited {
                        (
                            Supervisor { state: SupervisorState::Stopped, ..self },
                            SupervisorAction::Nothing,
                        )
                    } else {
                        (
                            Supervisor { state: SupervisorState::StoppingForced, ..self },
                            SupervisorAction::ForceKill,
                        )
                    }
                } else {
                    (self, SupervisorAction::Nothing)
                }
            },
            SupervisorEvent::ForcedExitConfirmed => {
                if matches!(self.state, SupervisorState::StoppingForced) {
                    (
                        Supervisor { state: SupervisorState::Stopped, ..self },
                        SupervisorAction::Nothing,
                    )
                } else {
                    (self, SupervisorAction::Nothing)
                }
            },
        }
    }

    /// The shutdown request, as [`shutdown_spec`] describes it.
    fn shutdown(self) -> (r: (Supervisor, SupervisorAction))
        ensures
            r == shutdown_spec(self),
    {
        match self.state {
            SupervisorState::Stopped => (self, SupervisorAction::Nothing),
            SupervisorState::Failed => (self, SupervisorAction::Nothing),
            SupervisorState::Idle => (
                Supervisor { state: SupervisorState::Stopped, ..self },
                SupervisorAction::Nothing,
            ),
            SupervisorState::Running => if matches!(self.mode, DeploymentMode::ExternalService) {
                (
                    Supervisor { state: SupervisorState::Stopped, ..self },
                    SupervisorAction::Nothing,
                )
            } else {
                (
                    Supervisor { state: SupervisorState::StoppingGraceful, ..self },
                    SupervisorAction::RequestGracefulStop,
                )
            },
            SupervisorState::Crashed => (
                Supervisor { state: SupervisorState::StoppingGraceful, ..self },
                SupervisorAction::RequestGracefulStop,
            ),
            SupervisorState::Restarting => (
                Supervisor { state: SupervisorState::StoppingGraceful, ..self },
                SupervisorAction::RequestGracefulStop,
            ),
            SupervisorState::Starting => (self, SupervisorAction::Nothing),
            SupervisorState::StoppingGraceful => (self, SupervisorAction::Nothing),
            SupervisorState::StoppingForced => (self, SupervisorAction::Nothing),
        }
    }

    /// The crash path, as [`crash_spec`] describes it.
    fn crash(self, status: ExitStatus) -> (r: (Supervisor, SupervisorAction))
        ensures
            r == crash_spec(self, status),
    {
        (
            Supervisor {
                state: SupervisorState::Crashed,
                last_exit: Option::Some(status),
                ..self
            },
            if self.restart_count < self.config.restart_bound {
                SupervisorAction::WaitBackoff
            } else {
                SupervisorAction::Nothing
            },
        )
    }
}

/// The supervisor a whole session of events leads to.
pub open spec fn run_spec(s: Supervisor, evs: Seq<SupervisorEvent>) -> Supervisor
    decreases evs.len(),
{
    if evs.len() == 0 {
        s
    } else {
        run_spec(step_spec(s, evs[0]).0, evs.drop_first())
    }
}

/// The lifecycle states a session enters, one entry per transition. A step
/// that leaves the state unchanged emits nothing: transitions, and only
/// transitions, are observable.
pub open spec fn states_spec(s: Supervisor, evs: Seq<SupervisorEvent>) -> Seq<SupervisorState>
    decreases evs.len(),
{
    if evs.len() == 0 {
        Seq::empty()
    } else {
        let s2 = step_spec(s, evs[0]).0;
        let rest = states_spec(s2, evs.drop_first());
        if s2.state == s.state {
            rest
        } else {
            seq![s2.state] + rest
        }
    }
}

/// The action a session demands after each event, one entry per event.
pub open spec fn actions_spec(s: Supervisor, evs: Seq<SupervisorEvent>) -> Seq<SupervisorAction>
    decreases evs.len(),
{
    if evs.len() == 0 {
        Seq::empty()
    } else {
        seq![step_spec(s, evs[0]).1] + actions_spec(step_spec(s, evs[0]).0, evs.drop_first())
    }
}

/// Everything one supervision session produced: the final supervisor, the
/// states entered (the initial one first), and the actions demanded.
pub struct RunReport {
    /// The supervisor after the last event.
    pub supervisor: Supervisor,
    /// The initial state followed by every state entered, in order.
    pub states: Vec<SupervisorState>,
    /// The action demanded after each event, in order.
    pub actions: Vec<SupervisorAction>,
}

/// Replays a whole supervision session: feeds every event to the supervisor
/// in order and records each transition and each demanded action.
pub fn run(init: Supervisor, events: &Vec<SupervisorEvent>) -> (r: RunReport)
    ensures
        r.supervisor == run_spec(init, events@),
        r.states@ == seq![init.state] + states_spec(init, events@),
        r.actions@ == actions_spec(init, events@),
        init.wf() ==> r.supervisor.wf(),
        r.supervisor.restart_count >= init.restart_count,
        r.supervisor.config == init.config,
{
    let ghost all = events@;
    let mut current = init;
    let mut states: Vec<SupervisorState> = Vec::new();
    let mut actions: Vec<SupervisorAction> = Vec::new();
    states.push(init.state);
    proof {
        assert(all.skip(0) =~= all);
        assert(states@ =~= seq![init.state]);
        assert(actions@ =~= Seq::<SupervisorAction>::empty());
    }
    let mut i: usize = 0;
    while i < events.len()
        invariant
            i <= events.len(),
            all == events@,
            run_spec(current, all.skip(i as int)) == run_spec(init, all),
            states@ + states_spec(current, all.skip(i as int)) == seq![init.state] + states_spec(
                init,
                all,
            ),
            actions@ + actions_spec(current, all.skip(i as int)) == actions_spec(init, all),
            init.wf() ==> current.wf(),
            current.restart_count >= init.restart_count,
            current.config == init.config,
        decreases events.len() - i,
    {
        let ghost rest = all.skip(i as int);
        proof {
            assert(rest[0] == all[i as int]);
            assert(rest.drop_first() =~= all.skip(i as int + 1));
        }
        let (next, act) = current.step(events[i]);
        proof {
            if next.state == current.state {
                assert(states@ + states_spec(next, all.skip(i as int + 1)) =~= states@
                    + states_spec(current, rest));
            } else {
                assert(states@.push(next.state) + states_spec(next, all.skip(i as int + 1))
                    =~= states@ + states_spec(current, rest));
            }
            assert(actions@.push(act) + actions_spec(next, all.skip(i as int + 1)) =~= actions@
                + actions_spec(current, rest));
        }
        if !next.same_state(&current) {
            states.push(next.state);
        }
        actions.push(act);
        current = next;
        i = i + 1;
    }
    proof {
        assert(all.skip(events.len() as int) =~= Seq::<SupervisorEvent>::empty());
        assert(states@ + Seq::<SupervisorState>::empty() =~= states@);
        assert(actions@ + Seq::<SupervisorAction>::empty() =~= actions@);
    }
    RunReport { supervisor: current, states, actions }
}

impl Supervisor {
    /// True when both supervisors are in the same lifecycle state.
    pub fn same_state(&self, other: &Supervisor) -> (r: bool)
        ensures
            r == (self.state == other.state),
    {
        self.state == other.state
    }
}

// Laws of the state machine.

/// Law: crash recovery is bounded. A crash observed while running always
/// enters `Crashed`. While restarts remain in the budget, the next decision
/// increments the counter, enters `Restarting`, and a successful relaunch
/// returns the supervisor to `Running`; once the budget is spent, the next
/// decision ends the session in `Failed`.
pub proof fn lemma_bounded_restart(s: Supervisor, status: ExitStatus)
    requires
        s.wf(),
        s.state is Running,
        s.mode is SelfManaged,
    ensures
        ({
            let crashed = step_spec(
                s,
                SupervisorEvent::MonitorTick {
                    shutdown_signaled: false,
                    check: ProcessCheck::Exited(status),
                },
            ).0;
            let decided = step_spec(crashed, SupervisorEvent::BackoffElapsed).0;
            &&& crashed.state is Crashed
            &&& s.restart_count < s.config.restart_bound ==> {
                &&& decided.state is Restarting
                &&& decided.restart_count == s.restart_count + 1
                &&& step_spec(
                    decided,
                    SupervisorEvent::LaunchFinished { outcome: LaunchOutcome::Ready },
                ).0.state is Running
            }
            &&& s.restart_count == s.config.restart_bound ==> {
                &&& decided.state is Failed
                &&& decided.failure == Option::Some(FailureReason::RestartsExhausted)
            }
        }),
{
}

/// Law: `Failed` is terminal. Every event leaves a failed supervisor
/// unchanged and demands nothing — in particular, no further restart is ever
/// attempted.
pub proof fn lemma_failed_is_terminal(s: Supervisor, ev: SupervisorEvent)
    requires
        s.state is Failed,
    ensures
        step_spec(s, ev) == (s, SupervisorAction::Nothing),
{
}

/// Law: a shutdown signal has priority over crash detection. A monitoring
/// iteration that finds the signal pending always enters `StoppingGraceful`,
/// whatever the liveness check reported in the same instant — a
/// caller-initiated stop is never misreported as a crash.
pub proof fn lemma_shutdown_signal_priority(s: Supervisor, check: ProcessCheck)
    requires
        s.state is Running,
        s.mode is SelfManaged,
    ensures
        ({
            let r = step_spec(
                s,
                SupervisorEvent::MonitorTick { shutdown_signaled: true, check: check },
            );
            r.0.state is StoppingGraceful && r.1 == SupervisorAction::RequestGracefulStop
        }),
{
}

/// Law: shutdown is idempotent on a stopped supervisor. Both a first and a
/// second request leave it exactly as it is and demand nothing — no double
/// kill, no error.
pub proof fn lemma_shutdown_idempotent_on_stopped(s: Supervisor)
    requires
        s.state is Stopped,
    ensures
        step_spec(s, SupervisorEvent::ShutdownRequested) == (s, SupervisorAction::Nothing),
        step_spec(
            step_spec(s, SupervisorEvent::ShutdownRequested).0,
            SupervisorEvent::ShutdownRequested,
        ) == (s, SupervisorAction::Nothing),
{
}

/// Law: in external mode the supervisor owns nothing and touches nothing.
/// Every step preserves the mode and demands no action at all — in
/// particular it never spawns, signals or kills a process.
pub proof fn lemma_external_mode_is_passive(s: Supervisor, ev: SupervisorEvent)
    requires
        s.wf(),
        s.mode is ExternalService,
    ensures
        step_spec(s, ev).0.mode is ExternalService,
        step_spec(s, ev).0.wf(),
        step_spec(s, ev).1 == SupervisorAction::Nothing,
{
}

/// Law: attaching to a healthy external instance never spawns a child. When
/// the pre-launch probe finds an external instance healthy, the launch
/// request transitions straight to `Running` in external mode without
/// demanding any action, and no sequence of later events ever demands one.
pub proof fn lemma_external_attach_never_spawns(s: Supervisor, evs: Seq<SupervisorEvent>)
    requires
        s.wf(),
        s.state is Idle,
    ensures
        ({
            let attach = step_spec(s, SupervisorEvent::LaunchRequested { external_healthy: true });
            &&& attach.0.state is Running
            &&& attach.0.mode is ExternalService
            &&& attach.1 == SupervisorAction::Nothing
            &&& forall|i: int|
                0 <= i < evs.len() ==> actions_spec(attach.0, evs)[i]
                    == SupervisorAction::Nothing
        }),
{
    let attach = step_spec(s, SupervisorEvent::LaunchRequested { external_healthy: true });
    lemma_external_actions_passive(attach.0, evs);
}

/// A session demands exactly one action per event.
pub proof fn lemma_actions_spec_len(s: Supervisor, evs: Seq<SupervisorEvent>)
    ensures
        actions_spec(s, evs).len() == evs.len(),
    decreases evs.len(),
{
    if evs.len() > 0 {
        lemma_actions_spec_len(step_spec(s, evs[0]).0, evs.drop_first());
    }
}

/// Every action an external-mode supervisor ever demands is `Nothing`.
proof fn lemma_external_actions_passive(s: Supervisor, evs: Seq<SupervisorEvent>)
    requires
        s.wf(),
        s.mode is ExternalService,
    ensures
        forall|i: int| 0 <= i < evs.len() ==> actions_spec(s, evs)[i] == SupervisorAction::Nothing,
    decreases evs.len(),
{
    if evs.len() > 0 {
        let s2 = step_spec(s, evs[0]).0;
        let rest = evs.drop_first();
        lemma_external_mode_is_passive(s, evs[0]);
        lemma_external_actions_passive(s2, rest);
        lemma_actions_spec_len(s2, rest);
        assert forall|i: int| 0 <= i < evs.len() implies actions_spec(s, evs)[i]
            == SupervisorAction::Nothing by {
            assert(actions_spec(s, evs) == seq![step_spec(s, evs[0]).1] + actions_spec(s2, rest));
            if i > 0 {
                assert(actions_spec(s, evs)[i] == actions_spec(s2, rest)[i - 1]);
            }
        }
    }
}

/// Law: the restart counter is monotone over a whole session, and
/// well-formedness is preserved by it.
pub proof fn lemma_run_preserves_wf(s: Supervisor, evs: Seq<SupervisorEvent>)
    requires
        s.wf(),
    ensures
        run_spec(s, evs).wf(),
        run_spec(s, evs).restart_count >= s.restart_count,
        run_spec(s, evs).config == s.config,
    decreases evs.len(),
{
    if evs.len() > 0 {
        lemma_run_preserves_wf(step_spec(s, evs[0]).0, evs.drop_first());
    }
}

} // verus!
