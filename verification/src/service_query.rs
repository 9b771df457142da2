//! Classification of service status queries.
//!
//! The OS service manager answers a status query with raw text; it is
//! classified by searching well-known tokens. A fixed "service not found"
//! error code means the service is not installed; the start type is read
//! from the configuration query's output the same way. Status queries need
//! no elevation and may be repeated freely.

use vstd::prelude::*;

use crate::text::contains_seq;
use crate::text::contains_token;

verus! {

/// A service's queryable status, as far as the raw answer reveals it.
#[derive(Clone, Copy, PartialEq, Eq, Structural, Debug)]
pub enum ServiceStatusKind {
    /// The service manager knows no entry under the service's name.
    NotInstalled,
    /// The entry exists and the service is not running.
    Stopped,
    /// The entry exists and the service is running.
    Running,
    /// The entry exists but the answer showed no recognizable state.
    Unknown,
}

/// The status surface reported to the host: whether the service entry
/// exists, whether it runs, and its configured start type when known.
#[derive(Clone, PartialEq, Eq, Debug)]
pub struct ServiceStatus {
    /// Whether the service entry exists at all.
    pub installed: bool,
    /// Whether the service is currently running.
    pub running: bool,
    /// The configured start type, when the configuration query revealed
    /// one.
    pub start_type: Option<String>,
}

/// Whether the query's answer carries the fixed "service not found" error
/// code, in either output stream.
pub open spec fn not_found_spec(stdout: Seq<char>, stderr: Seq<char>) -> bool {
    contains_seq(stderr, "1060"@) || contains_seq(stdout, "1060"@)
}

/// What a status query's raw answer means.
pub open spec fn classify_kind_spec(stdout: Seq<char>, stderr: Seq<char>) -> ServiceStatusKind {
    if not_found_spec(stdout, stderr) {
        ServiceStatusKind::NotInstalled
    } else if contains_seq(stdout, "RUNNING"@) {
        ServiceStatusKind::Running
    } else if contains_seq(stdout, "STOPPED"@) {
        ServiceStatusKind::Stopped
    } else {
        ServiceStatusKind::Unknown
    }
}

/// Classifies the raw answer of one status query.
pub fn classify_service_query(stdout: &str, stderr: &str) -> (k: ServiceStatusKind)
    ensures
        k == classify_kind_spec(stdout@, stderr@),
{
    if contains_token(stderr, "1060") || contains_token(stdout, "1060") {
        ServiceStatusKind::NotInstalled
    } else if contains_token(stdout, "RUNNING") {
        ServiceStatusKind::Running
    } else if contains_token(stdout, "STOPPED") {
        ServiceStatusKind::Stopped
    } else {
        ServiceStatusKind::Unknown
    }
}

/// The start type the configuration query's answer names.
pub open spec fn start_type_spec(qc_stdout: Seq<char>) -> Option<Seq<char>> {
    if contains_seq(qc_stdout, "AUTO_START"@) {
        Option::Some("automatic"@)
    } else if contains_seq(qc_stdout, "DEMAND_START"@) {
        Option::Some("manual"@)
    } else if contains_seq(qc_stdout, "DISABLED"@) {
        Option::Some("disabled"@)
    } else {
        Option::None
    }
}

/// Reads the configured start type out of the configuration query's raw
/// answer.
pub fn classify_start_type(qc_stdout: &str) -> (r: Option<String>)
    ensures
        r.deep_view() == start_type_spec(qc_stdout@),
{
    if contains_token(qc_stdout, "AUTO_START") {
        Option::Some(String::from_str("automatic"))
    } else if contains_token(qc_stdout, "DEMAND_START") {
        Option::Some(String::from_str("manual"))
    } else if contains_token(qc_stdout, "DISABLED") {
        Option::Some(String::from_str("disabled"))
    } else {
        Option::None
    }
}

/// The current status of the backend's service entry, read from the raw
/// answers of the status query and, when it ran, the configuration query
/// (`qc_stdout` is absent when that query could not be run at all). The
/// "service not found" error code hides everything else.
pub fn get_service_status(stdout: &str, stderr: &str, qc_stdout: &Option<String>) -> (r:
    ServiceStatus)
    ensures
        r.installed == !not_found_spec(stdout@, stderr@),
        r.running == (!not_found_spec(stdout@, stderr@) && contains_seq(stdout@, "RUNNING"@)),
        r.installed ==> r.start_type.deep_view() == (match qc_stdout {
            Option::Some(qc) => start_type_spec(qc@),
            Option::None => Option::<Seq<char>>::None,
        }),
        !r.installed ==> r.start_type is None,
{
    if contains_token(stderr, "1060") || contains_token(stdout, "1060") {
        ServiceStatus { installed: false, running: false, start_type: Option::None }
    } else {
        let running = contains_token(stdout, "RUNNING");
        let start_type = match qc_stdout {
            Option::Some(qc) => classify_start_type(qc.as_str()),
            Option::None => Option::None,
        };
        ServiceStatus { installed: true, running, start_type }
    }
}

} // verus!
