//! Best-effort lookup of a process name in the local process table.
//!
//! The lookup enriches one optional field of a service record; it reads the
//! machine's live process table, so its outcome depends on what runs at that
//! moment and nothing is promised of it. Callers are verified for every
//! possible outcome, and a miss is never an error.
use vstd::prelude::*;
use sysinfo::{PidExt, ProcessExt, SystemExt};

verus! {

#[verifier::external_type_specification]
#[verifier::external_body]
pub struct ExSystem(sysinfo::System);

/// Relies on sysinfo's `System::new`: a process-table holder with nothing
/// loaded yet.
#[verifier::external_body]
fn system_new() -> sysinfo::System {
    sysinfo::System::new()
}

/// Relies on sysinfo's `System::refresh_process`: loads the table entry of
/// one process, returning false when no such process exists.
#[verifier::external_body]
fn system_refresh_process(sys: &mut sysinfo::System, pid: u32) -> bool {
    sys.refresh_process(sysinfo::Pid::from_u32(pid))
}

/// Relies on sysinfo's `System::process` and `Process::name`: the name of
/// the process as the table holds it, if the entry is present.
#[verifier::external_body]
fn system_process_name(sys: &sysinfo::System, pid: u32) -> Option<String> {
    match sys.process(sysinfo::Pid::from_u32(pid)) {
        Some(p) => Some(p.name().to_string()),
        None => None,
    }
}

/// Resolves the name of the process with the given pid, if it still runs.
///
/// The process may exit or be reaped at any moment, so a `None` is an
/// accepted outcome, never a failure.
pub fn lookup_process_name(pid: u32) -> Option<String> {
    let mut sys = system_new();
    let process_exists = system_refresh_process(&mut sys, pid);
    if process_exists {
        system_process_name(&sys, pid)
    } else {
        None
    }
}

} // verus!
