use zerobyte::lifecycle::describe_service;
use zerobyte::lifecycle::find_server_executable;
use zerobyte::lifecycle::install_service;
use zerobyte::lifecycle::poll_service_status;
use zerobyte::lifecycle::run_elevated;
use zerobyte::lifecycle::run_operation;
use zerobyte::lifecycle::start_service;
use zerobyte::lifecycle::stop_service;
use zerobyte::lifecycle::uninstall_service;
use zerobyte::lifecycle::LifecycleError;
use zerobyte::lifecycle::ServiceOperation;
use zerobyte::service_query::ServiceStatusKind;

fn candidates() -> Vec<String> {
    vec![
        "zerobyte-server-x86_64-pc-windows-msvc.exe".to_string(),
        "zerobyte-server.exe".to_string(),
    ]
}

#[test]
fn the_first_existing_candidate_wins() {
    let r = find_server_executable(&candidates(), &vec![false, true]);
    assert_eq!(r, Some("zerobyte-server.exe".to_string()));
    let r = find_server_executable(&candidates(), &vec![true, true]);
    assert_eq!(
        r,
        Some("zerobyte-server-x86_64-pc-windows-msvc.exe".to_string())
    );
}

#[test]
fn absence_of_all_candidates_resolves_nothing() {
    let r = find_server_executable(&candidates(), &vec![false, false]);
    assert_eq!(r, None);
    let r = find_server_executable(&vec![], &vec![]);
    assert_eq!(r, None);
}

#[test]
fn elevation_succeeds_only_above_the_shell_threshold() {
    assert_eq!(run_elevated(33), Ok(()));
    assert_eq!(run_elevated(42), Ok(()));
    assert_eq!(run_elevated(32), Err(LifecycleError::ElevationDenied));
    assert_eq!(run_elevated(0), Err(LifecycleError::ElevationDenied));
}

#[test]
fn status_poll_stops_at_the_first_match() {
    let observed = vec![
        ServiceStatusKind::NotInstalled,
        ServiceStatusKind::Stopped,
        ServiceStatusKind::Running,
        ServiceStatusKind::Running,
    ];
    let r = poll_service_status(&observed, ServiceStatusKind::Running, 30);
    assert!(r.reached);
    assert_eq!(r.attempt, 3);
}

#[test]
fn status_poll_respects_its_budget() {
    let observed = vec![
        ServiceStatusKind::Stopped,
        ServiceStatusKind::Stopped,
        ServiceStatusKind::Running,
    ];
    let r = poll_service_status(&observed, ServiceStatusKind::Running, 2);
    assert!(!r.reached);
    assert_eq!(r.attempt, 2);
}

#[test]
fn install_succeeds_when_the_status_converges_to_running() {
    // Executable present, elevation granted, and the service is seen going
    // not-installed, stopped, running well within the budget.
    let observed = vec![
        ServiceStatusKind::NotInstalled,
        ServiceStatusKind::Stopped,
        ServiceStatusKind::Running,
    ];
    let r = install_service(
        &candidates(),
        &vec![true, true],
        true,
        &observed,
        ServiceStatusKind::Running,
        30,
    );
    assert_eq!(r, Ok(()));
}

#[test]
fn install_with_all_candidates_absent_fails_at_once() {
    // No executable: the operation fails before anything is attempted, and
    // in particular the elevation outcome cannot matter.
    let observed: Vec<ServiceStatusKind> = vec![];
    for elevation_granted in [false, true] {
        let r = install_service(
            &candidates(),
            &vec![false, false],
            elevation_granted,
            &observed,
            ServiceStatusKind::Unknown,
            30,
        );
        assert_eq!(r, Err(LifecycleError::ExecutableNotFound));
    }
}

#[test]
fn denied_elevation_is_fatal_to_the_operation() {
    let r = start_service(
        &candidates(),
        &vec![true, false],
        false,
        &vec![ServiceStatusKind::Running],
        ServiceStatusKind::Running,
        30,
    );
    assert_eq!(r, Err(LifecycleError::ElevationDenied));
}

#[test]
fn installed_but_not_started_is_a_soft_success_for_install() {
    // The poll never sees Running, but the final re-query finds the entry
    // installed and stopped: install still counts as done.
    let observed = vec![ServiceStatusKind::NotInstalled, ServiceStatusKind::Stopped];
    let r = install_service(
        &candidates(),
        &vec![true, true],
        true,
        &observed,
        ServiceStatusKind::Stopped,
        2,
    );
    assert_eq!(r, Ok(()));
}

#[test]
fn stopped_is_no_soft_success_for_start() {
    let observed = vec![ServiceStatusKind::Stopped, ServiceStatusKind::Stopped];
    let r = start_service(
        &candidates(),
        &vec![true, true],
        true,
        &observed,
        ServiceStatusKind::Stopped,
        2,
    );
    assert_eq!(r, Err(LifecycleError::StatusPollTimeout(ServiceStatusKind::Stopped)));
}

#[test]
fn uninstall_waits_for_the_entry_to_disappear() {
    let observed = vec![
        ServiceStatusKind::Running,
        ServiceStatusKind::Stopped,
        ServiceStatusKind::NotInstalled,
    ];
    let r = uninstall_service(
        &candidates(),
        &vec![true, true],
        true,
        &observed,
        ServiceStatusKind::NotInstalled,
        30,
    );
    assert_eq!(r, Ok(()));
}

#[test]
fn stop_converges_to_stopped() {
    let observed = vec![ServiceStatusKind::Running, ServiceStatusKind::Stopped];
    let r = stop_service(
        &candidates(),
        &vec![true, true],
        true,
        &observed,
        ServiceStatusKind::Stopped,
        30,
    );
    assert_eq!(r, Ok(()));
}

#[test]
fn timeout_with_an_unacceptable_final_state_is_reported_as_failure() {
    let observed = vec![ServiceStatusKind::Unknown, ServiceStatusKind::Unknown];
    let r = run_operation(
        ServiceOperation::Uninstall,
        &candidates(),
        &vec![true, true],
        true,
        &observed,
        ServiceStatusKind::Running,
        2,
    );
    assert_eq!(r, Err(LifecycleError::StatusPollTimeout(ServiceStatusKind::Running)));
}

#[test]
fn a_descriptor_is_assembled_from_resolution_and_query() {
    let d = describe_service(
        "ZerobyteService",
        &candidates(),
        &vec![false, true],
        "STATE : 4 RUNNING",
        "",
    );
    assert_eq!(d.name, "ZerobyteService");
    assert_eq!(d.executable_path, Some("zerobyte-server.exe".to_string()));
    assert_eq!(d.status, ServiceStatusKind::Running);
    let d = describe_service("ZerobyteService", &candidates(), &vec![false, false], "", "1060");
    assert_eq!(d.executable_path, None);
    assert_eq!(d.status, ServiceStatusKind::NotInstalled);
}

#[test]
fn the_final_recheck_can_rescue_a_late_convergence() {
    // The poll budget expires before the expected state shows, but the one
    // further query finds it reached after all.
    let observed = vec![ServiceStatusKind::Running, ServiceStatusKind::Running];
    let r = run_operation(
        ServiceOperation::Stop,
        &candidates(),
        &vec![true, true],
        true,
        &observed,
        ServiceStatusKind::Stopped,
        2,
    );
    assert_eq!(r, Ok(()));
}
