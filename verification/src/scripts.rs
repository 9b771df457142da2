//! The privileged command scripts.
//!
//! Each lifecycle operation is achieved by one batch script handed to the
//! elevation request: it performs the service-manager commands, appends its
//! progress to a log file, and marks errors with a fixed prefix. The text
//! is built here and proved to be exactly the commands with the service
//! name, the executable path and the log path in their places.

use vstd::prelude::*;

verus! {

/// The text of the install script: create the entry pointing at the
/// executable, set its description and failure-recovery policy, start it.
pub open spec fn install_script_seq(service: Seq<char>, exe: Seq<char>, log: Seq<char>) -> Seq<
    char,
> {
    "@echo off\necho Installing service... > \""@ + log + "\"\nsc create "@ + service
        + " binPath= \""@ + exe
        + "\" start= auto DisplayName= \"C3i Backup ONE Service\" >> \""@ + log
        + "\" 2>&1\nif %errorlevel% neq 0 (\n    echo ERROR: Failed to create service >> \""@
        + log + "\"\n    exit /b %errorlevel%\n)\nsc description "@ + service
        + " \"Background backup service for C3i Backup ONE\" >> \""@ + log
        + "\" 2>&1\nsc failure "@ + service
        + " reset= 86400 actions= restart/5000/restart/5000/restart/5000 >> \""@ + log
        + "\" 2>&1\nsc start "@ + service + " >> \""@ + log
        + "\" 2>&1\necho Installation complete >> \""@ + log + "\"\n"@
}

/// Builds the install script for the named service, the resolved
/// executable and the log file.
pub fn install_script(service: &str, exe: &str, log: &str) -> (r: String)
    ensures
        r@ == install_script_seq(service@, exe@, log@),
{
    let mut s = String::from_str("@echo off\necho Installing service... > \"");
    s.append(log);
    s.append("\"\nsc create ");
    s.append(service);
    s.append(" binPath= \"");
    s.append(exe);
    s.append("\" start= auto DisplayName= \"C3i Backup ONE Service\" >> \"");
    s.append(log);
    s.append("\" 2>&1\nif %errorlevel% neq 0 (\n    echo ERROR: Failed to create service >> \"");
    s.append(log);
    s.append("\"\n    exit /b %errorlevel%\n)\nsc description ");
    s.append(service);
    s.append(" \"Background backup service for C3i Backup ONE\" >> \"");
    s.append(log);
    s.append("\" 2>&1\nsc failure ");
    s.append(service);
    s.append(" reset= 86400 actions= restart/5000/restart/5000/restart/5000 >> \"");
    s.append(log);
    s.append("\" 2>&1\nsc start ");
    s.append(service);
    s.append(" >> \"");
    s.append(log);
    s.append("\" 2>&1\necho Installation complete >> \"");
    s.append(log);
    s.append("\"\n");
    s
}

/// The text of the uninstall script: stop the service, give it a moment,
/// delete the entry.
pub open spec fn uninstall_script_seq(service: Seq<char>, log: Seq<char>) -> Seq<char> {
    "@echo off\necho Stopping service... > \""@ + log + "\"\nsc stop "@ + service + " >> \""@
        + log + "\" 2>&1\ntimeout /t 3 /nobreak >nul\necho Deleting service... >> \""@ + log
        + "\"\nsc delete "@ + service + " >> \""@ + log
        + "\" 2>&1\nif %errorlevel% neq 0 (\n    echo ERROR: Failed to delete service >> \""@
        + log + "\"\n    exit /b %errorlevel%\n)\necho Uninstallation complete >> \""@ + log
        + "\"\n"@
}

/// Builds the uninstall script for the named service and the log file.
pub fn uninstall_script(service: &str, log: &str) -> (r: String)
    ensures
        r@ == uninstall_script_seq(service@, log@),
{
    let mut s = String::from_str("@echo off\necho Stopping service... > \"");
    s.append(log);
    s.append("\"\nsc stop ");
    s.append(service);
    s.append(" >> \"");
    s.append(log);
    s.append("\" 2>&1\ntimeout /t 3 /nobreak >nul\necho Deleting service... >> \"");
    s.append(log);
    s.append("\"\nsc delete ");
    s.append(service);
    s.append(" >> \"");
    s.append(log);
    s.append("\" 2>&1\nif %errorlevel% neq 0 (\n    echo ERROR: Failed to delete service >> \"");
    s.append(log);
    s.append("\"\n    exit /b %errorlevel%\n)\necho Uninstallation complete >> \"");
    s.append(log);
    s.append("\"\n");
    s
}

/// The text of the start script.
pub open spec fn start_script_seq(service: Seq<char>, log: Seq<char>) -> Seq<char> {
    "@echo off\necho Starting service... > \""@ + log + "\"\nsc start "@ + service + " >> \""@
        + log
        + "\" 2>&1\nif %errorlevel% neq 0 (\n    echo ERROR: Failed to start service >> \""@
        + log + "\"\n    exit /b %errorlevel%\n)\necho Service started >> \""@ + log + "\"\n"@
}

/// Builds the start script for the named service and the log file.
pub fn start_script(service: &str, log: &str) -> (r: String)
    ensures
        r@ == start_script_seq(service@, log@),
{
    let mut s = String::from_str("@echo off\necho Starting service... > \"");
    s.append(log);
    s.append("\"\nsc start ");
    s.append(service);
    s.append(" >> \"");
    s.append(log);
    s.append("\" 2>&1\nif %errorlevel% neq 0 (\n    echo ERROR: Failed to start service >> \"");
    s.append(log);
    s.append("\"\n    exit /b %errorlevel%\n)\necho Service started >> \"");
    s.append(log);
    s.append("\"\n");
    s
}

/// The text of the stop script.
pub open spec fn stop_script_seq(service: Seq<char>, log: Seq<char>) -> Seq<char> {
    "@echo off\necho Stopping service... > \""@ + log + "\"\nsc stop "@ + service + " >> \""@
        + log + "\" 2>&1\nif %errorlevel% neq 0 (\n    echo ERROR: Failed to stop service >> \""@
        + log + "\"\n    exit /b %errorlevel%\n)\necho Service stopped >> \""@ + log + "\"\n"@
}

/// Builds the stop script for the named service and the log file.
pub fn stop_script(service: &str, log: &str) -> (r: String)
    ensures
        r@ == stop_script_seq(service@, log@),
{
    let mut s = String::from_str("@echo off\necho Stopping service... > \"");
    s.append(log);
    s.append("\"\nsc stop ");
    s.append(service);
    s.append(" >> \"");
    s.append(log);
    s.append("\" 2>&1\nif %errorlevel% neq 0 (\n    echo ERROR: Failed to stop service >> \"");
    s.append(log);
    s.append("\"\n    exit /b %errorlevel%\n)\necho Service stopped >> \"");
    s.append(log);
    s.append("\"\n");
    s
}

} // verus!
