//! The privileged lifecycle controller: install, uninstall, start and stop
//! of the backend's OS service entry.
//!
//! Each operation resolves the backend executable from an ordered candidate
//! list, runs a privileged script through an elevation request, and — since
//! the elevated execution is detached from the caller — infers completion
//! by polling the service's queryable status until it matches the
//! operation's expected end state or a bounded timeout elapses. The caller
//! performs the elevation and the queries; the decisions live here.

use vstd::prelude::*;

use crate::service_query::classify_kind_spec;
use crate::service_query::classify_service_query;
use crate::service_query::ServiceStatusKind;

verus! {

/// The four privileged operations on the service entry.
#[derive(Clone, Copy, PartialEq, Eq, Structural, Debug)]
pub enum ServiceOperation {
    /// Create the service entry and start it.
    Install,
    /// Stop the service and delete its entry.
    Uninstall,
    /// Start the installed service.
    Start,
    /// Stop the running service.
    Stop,
}

/// Why a privileged operation failed.
#[derive(Clone, Copy, PartialEq, Eq, Structural, Debug)]
pub enum LifecycleError {
    /// None of the executable candidates exists; nothing was attempted.
    ExecutableNotFound,
    /// The elevation request itself was refused; no retry is made.
    ElevationDenied,
    /// The expected end state was not observed in time, and the final
    /// re-query found no acceptable state either; the status it did find is
    /// carried as diagnostic context. The controller's state is not
    /// corrupted by this; the operation is merely reported as failed.
    StatusPollTimeout(ServiceStatusKind),
}

/// The status each operation is expected to converge to.
pub open spec fn expected_status(op: ServiceOperation) -> ServiceStatusKind {
    match op {
        ServiceOperation::Install => ServiceStatusKind::Running,
        ServiceOperation::Start => ServiceStatusKind::Running,
        ServiceOperation::Uninstall => ServiceStatusKind::NotInstalled,
        ServiceOperation::Stop => ServiceStatusKind::Stopped,
    }
}

/// Returns the status an operation is expected to converge to.
pub fn expected_status_of(op: ServiceOperation) -> (k: ServiceStatusKind)
    ensures
        k == expected_status(op),
{
    match op {
        ServiceOperation::Install => ServiceStatusKind::Running,
        ServiceOperation::Start => ServiceStatusKind::Running,
        ServiceOperation::Uninstall => ServiceStatusKind::NotInstalled,
        ServiceOperation::Stop => ServiceStatusKind::Stopped,
    }
}

/// Whether a status observed on the final re-query counts as success for
/// the operation: the expected end state always does, and an installed but
/// not yet started service is a soft success for install.
pub open spec fn acceptable_final(op: ServiceOperation, observed: ServiceStatusKind) -> bool {
    observed == expected_status(op) || (op is Install && observed is Stopped)
}

/// No executable candidate exists.
pub open spec fn all_absent(present: Seq<bool>) -> bool {
    forall|i: int| 0 <= i < present.len() ==> !present[i]
}

/// Resolves the backend executable: the candidates are tried in order and
/// the first existing one wins. `present[i]` tells whether `candidates[i]`
/// exists; the caller checked the filesystem.
pub fn find_server_executable(candidates: &Vec<String>, present: &Vec<bool>) -> (r: Option<
    String,
>)
    requires
        candidates@.len() == present@.len(),
    ensures
        (r is Some) == !all_absent(present@),
        r matches Some(path) ==> exists|i: int|
            0 <= i < present@.len() && present@[i] && path@ == candidates@[i]@ && (forall|j: int|
                0 <= j < i ==> !present@[j]),
{
    let mut i: usize = 0;
    while i < present.len()
        invariant
            candidates@.len() == present@.len(),
            i <= present@.len(),
            forall|j: int| 0 <= j < i ==> !present@[j],
        decreases present@.len() - i,
    {
        if present[i] {
            return Option::Some(candidates[i].clone());
        }
        i = i + 1;
    }
    Option::None
}

/// One service entry as the service manager sees it right now: its name,
/// where its executable was resolved to (when any candidate exists), and
/// its queryable status. Assembled on demand, never cached beyond one
/// operation.
#[derive(Clone, PartialEq, Eq, Debug)]
pub struct ServiceDescriptor {
    /// The name the entry is registered under.
    pub name: String,
    /// The resolved backend executable, when one of the candidates exists.
    pub executable_path: Option<String>,
    /// The status the manager reported at query time.
    pub status: ServiceStatusKind,
}

/// Queries one service descriptor: the executable resolved by the ordered
/// candidate search, and the status classified from the raw query answer.
pub fn describe_service(
    name: &str,
    candidates: &Vec<String>,
    present: &Vec<bool>,
    query_stdout: &str,
    query_stderr: &str,
) -> (d: ServiceDescriptor)
    requires
        candidates@.len() == present@.len(),
    ensures
        d.name@ == name@,
        d.status == classify_kind_spec(query_stdout@, query_stderr@),
        (d.executable_path is Some) == !all_absent(present@),
        d.executable_path matches Some(path) ==> exists|i: int|
            0 <= i < present@.len() && present@[i] && path@ == candidates@[i]@ && (forall|j: int|
                0 <= j < i ==> !present@[j]),
{
    ServiceDescriptor {
        name: String::from_str(name),
        executable_path: find_server_executable(candidates, present),
        status: classify_service_query(query_stdout, query_stderr),
    }
}

/// Classifies the elevation request's raw result. The underlying shell
/// call reports success through a value above 32; anything else is an
/// immediate refusal, fatal to the operation.
pub fn run_elevated(shell_execute_result: usize) -> (r: Result<(), LifecycleError>)
    ensures
        (r is Ok) == (shell_execute_result > 32),
        shell_execute_result <= 32 ==> r == Result::<(), LifecycleError>::Err(
            LifecycleError::ElevationDenied,
        ),
{
    if shell_execute_result > 32 {
        Result::Ok(())
    } else {
        Result::Err(LifecycleError::ElevationDenied)
    }
}

/// How many status queries a poll over `observed` examines: every attempt
/// up to the budget, or the whole trace when it is shorter.
pub open spec fn status_examined(observed: Seq<ServiceStatusKind>, max_attempts: int) -> int {
    if observed.len() < max_attempts {
        observed.len() as int
    } else {
        max_attempts
    }
}

/// Whether any of the first `n` observed statuses matches the expected one.
pub open spec fn any_status_match(
    observed: Seq<ServiceStatusKind>,
    expected: ServiceStatusKind,
    n: int,
) -> bool {
    exists|i: int| 0 <= i < n && observed[i] == expected
}

/// What a status poll reports back.
#[derive(Clone, Copy, PartialEq, Eq, Structural, Debug)]
pub struct StatusPollResult {
    /// Whether the expected status was observed before the budget ran out.
    pub reached: bool,
    /// How many queries were issued; when reached, the ordinal of the first
    /// matching one.
    pub attempt: u32,
}

/// Polls the service status for the expected end state: one query per entry
/// of `observed` (the classifications the caller's queries produced, in
/// order), stopping at the first match, giving up after `max_attempts`
/// queries.
pub fn poll_service_status(
    observed: &Vec<ServiceStatusKind>,
    expected: ServiceStatusKind,
    max_attempts: u32,
) -> (r: StatusPollResult)
    ensures
        r.reached == any_status_match(observed@, expected, status_examined(observed@, max_attempts as int)),
        r.attempt <= max_attempts,
        r.attempt <= observed@.len(),
        r.reached ==> 1 <= r.attempt && observed@[r.attempt - 1] == expected && forall|j: int|
            0 <= j < r.attempt - 1 ==> observed@[j] != expected,
        !r.reached ==> r.attempt == status_examined(observed@, max_attempts as int),
{
    let mut issued: u32 = 0;
    while issued < max_attempts && (issued as usize) < observed.len()
        invariant
            issued <= max_attempts,
            issued as int <= observed@.len(),
            forall|j: int| 0 <= j < issued ==> observed@[j] != expected,
        decreases max_attempts - issued,
    {
        if observed[issued as usize] == expected {
            return StatusPollResult { reached: true, attempt: issued + 1 };
        }
        issued = issued + 1;
    }
    StatusPollResult { reached: false, attempt: issued }
}

/// The outcome of one whole privileged operation, given the trace of what
/// the caller observed: executable resolution first, then the elevation
/// request, then status convergence with the final re-query.
pub open spec fn operation_outcome_spec(
    op: ServiceOperation,
    present: Seq<bool>,
    elevation_granted: bool,
    observed: Seq<ServiceStatusKind>,
    final_recheck: ServiceStatusKind,
    max_attempts: int,
) -> Result<(), LifecycleError> {
    if all_absent(present) {
        Result::Err(LifecycleError::ExecutableNotFound)
    } else if !elevation_granted {
        Result::Err(LifecycleError::ElevationDenied)
    } else if any_status_match(observed, expected_status(op), status_examined(observed, max_attempts)) {
        Result::Ok(())
    } else if acceptable_final(op, final_recheck) {
        Result::Ok(())
    } else {
        Result::Err(LifecycleError::StatusPollTimeout(final_recheck))
    }
}

/// Drives one privileged operation to its verdict.
///
/// `candidates` and `present` describe the executable resolution; when no
/// candidate exists the operation fails at once with `ExecutableNotFound`
/// and nothing else — not even the elevation request — is consulted.
/// `elevation_granted` is what the elevation request reported.
/// `observed` holds the status classifications the caller's polling
/// produced in order; `final_recheck` is the one further query made after
/// the poll gave up, since the service may have reached an acceptable
/// intermediate state by then.
pub fn run_operation(
    op: ServiceOperation,
    candidates: &Vec<String>,
    present: &Vec<bool>,
    elevation_granted: bool,
    observed: &Vec<ServiceStatusKind>,
    final_recheck: ServiceStatusKind,
    max_attempts: u32,
) -> (r: Result<(), LifecycleError>)
    requires
        candidates@.len() == present@.len(),
    ensures
        r == operation_outcome_spec(
            op,
            present@,
            elevation_granted,
            observed@,
            final_recheck,
            max_attempts as int,
        ),
        all_absent(present@) ==> r == Result::<(), LifecycleError>::Err(
            LifecycleError::ExecutableNotFound,
        ),
{
    let resolved = find_server_executable(candidates, present);
    if resolved.is_none() {
        return Result::Err(LifecycleError::ExecutableNotFound);
    }
    if !elevation_granted {
        return Result::Err(LifecycleError::ElevationDenied);
    }
    let expected = expected_status_of(op);
    let polled = poll_service_status(observed, expected, max_attempts);
    if polled.reached {
        return Result::Ok(());
    }
    let acceptable = match op {
        ServiceOperation::Install => final_recheck == expected || final_recheck
            == ServiceStatusKind::Stopped,
        _ => final_recheck == expected,
    };
    if acceptable {
        Result::Ok(())
    } else {
        Result::Err(LifecycleError::StatusPollTimeout(final_recheck))
    }
}

/// Installs the service entry: create, describe, set the failure-recovery
/// policy, start, then wait for the status to converge to `Running` (an
/// installed but not yet started entry counts as a soft success).
pub fn install_service(
    candidates: &Vec<String>,
    present: &Vec<bool>,
    elevation_granted: bool,
    observed: &Vec<ServiceStatusKind>,
    final_recheck: ServiceStatusKind,
    max_attempts: u32,
) -> (r: Result<(), LifecycleError>)
    requires
        candidates@.len() == present@.len(),
    ensures
        r == operation_outcome_spec(
            ServiceOperation::Install,
            present@,
            elevation_granted,
            observed@,
            final_recheck,
            max_attempts as int,
        ),
{
    run_operation(
        ServiceOperation::Install,
        candidates,
        present,
        elevation_granted,
        observed,
        final_recheck,
        max_attempts,
    )
}

/// Uninstalls the service entry: stop, delete, then wait for the status to
/// converge to `NotInstalled`.
pub fn uninstall_service(
    candidates: &Vec<String>,
    present: &Vec<bool>,
    elevation_granted: bool,
    observed: &Vec<ServiceStatusKind>,
    final_recheck: ServiceStatusKind,
    max_attempts: u32,
) -> (r: Result<(), LifecycleError>)
    requires
        candidates@.len() == present@.len(),
    ensures
        r == operation_outcome_spec(
            ServiceOperation::Uninstall,
            present@,
            elevation_granted,
            observed@,
            final_recheck,
            max_attempts as int,
        ),
{
    run_operation(
        ServiceOperation::Uninstall,
        candidates,
        present,
        elevation_granted,
        observed,
        final_recheck,
        max_attempts,
    )
}

/// Starts the installed service, then waits for the status to converge to
/// `Running`.
pub fn start_service(
    candidates: &Vec<String>,
    present: &Vec<bool>,
    elevation_granted: bool,
    observed: &Vec<ServiceStatusKind>,
    final_recheck: ServiceStatusKind,
    max_attempts: u32,
) -> (r: Result<(), LifecycleError>)
    requires
        candidates@.len() == present@.len(),
    ensures
        r == operation_outcome_spec(
            ServiceOperation::Start,
            present@,
            elevation_granted,
            observed@,
            final_recheck,
            max_attempts as int,
        ),
{
    run_operation(
        ServiceOperation::Start,
        candidates,
        present,
        elevation_granted,
        observed,
        final_recheck,
        max_attempts,
    )
}

/// Stops the running service, then waits for the status to converge to
/// `Stopped`.
pub fn stop_service(
    candidates: &Vec<String>,
    present: &Vec<bool>,
    elevation_granted: bool,
    observed: &Vec<ServiceStatusKind>,
    final_recheck: ServiceStatusKind,
    max_attempts: u32,
) -> (r: Result<(), LifecycleError>)
    requires
        candidates@.len() == present@.len(),
    ensures
        r == operation_outcome_spec(
            ServiceOperation::Stop,
            present@,
            elevation_granted,
            observed@,
            final_recheck,
            max_attempts as int,
        ),
{
    run_operation(
        ServiceOperation::Stop,
        candidates,
        present,
        elevation_granted,
        observed,
        final_recheck,
        max_attempts,
    )
}

} // verus!
