//! Process records and process control.
//!
//! A listing is a full re-enumeration: every call builds fresh
//! records, and a process that exited between calls while another
//! reused its id is indistinguishable from it — a documented limit of
//! the model, not a defect. Icon augmentation is best-effort per
//! record: an absent or failed icon yields `None`, never a
//! listing-wide error.

use vstd::prelude::*;
use crate::icon::extract_icon_base64;
use crate::probe;

verus! {

/// One raw process reading: what the caller's enumeration hands over,
/// with the CPU share already rendered in hundredths of a percent and
/// the resident memory still in bytes.
pub struct ProcessReading {
    pub pid: i32,
    pub name: String,
    pub cpu_hundredths: u64,
    pub memory_bytes: u64,
    pub exe: Option<String>,
}

/// One process as presented to a caller.
pub struct ProcessRecord {
    pub pid: i32,
    pub name: String,
    pub cpu_hundredths: u64,
    pub memory_mb: u64,
    pub exe: Option<String>,
    pub icon: Option<String>,
}

/// How a record relates to its reading: identity carried over, memory
/// normalized from bytes to whole megabytes, and — this build having
/// no icon-extraction facility — no icon.
pub open spec fn process_record_matches(r: ProcessRecord, reading: ProcessReading) -> bool {
    &&& r.pid == reading.pid
    &&& r.name == reading.name
    &&& r.cpu_hundredths == reading.cpu_hundredths
    &&& r.memory_mb == reading.memory_bytes as int / (1048576 as int)
    &&& r.exe == reading.exe
    &&& r.icon is None
}

/// Builds one process record from a reading, attempting the icon on
/// the way.
pub fn process_record_from_reading(reading: ProcessReading) -> (r: ProcessRecord)
    ensures
        process_record_matches(r, reading),
{
    let icon: Option<String> = match &reading.exe {
        Some(path) => match extract_icon_base64(path.as_str()) {
            Ok(payload) => Some(payload),
            Err(_) => None,
        },
        None => None,
    };
    ProcessRecord {
        pid: reading.pid,
        name: reading.name,
        cpu_hundredths: reading.cpu_hundredths,
        memory_mb: reading.memory_bytes / (1024 * 1024),
        exe: reading.exe,
        icon,
    }
}

/// Builds the full listing, one record per reading, in order.
pub fn compose_process_records(readings: Vec<ProcessReading>) -> (r: Vec<ProcessRecord>)
    ensures
        r@.len() == readings@.len(),
        forall|i: int|
            0 <= i < readings@.len() ==> process_record_matches(#[trigger] r@[i], readings@[i]),
{
    let mut out: Vec<ProcessRecord> = Vec::new();
    let mut rest = readings;
    let ghost all = rest@;
    let mut i: usize = 0;
    let n = rest.len();
    while i < n
        invariant
            n == all.len(),
            rest@ =~= all.subrange(i as int, n as int),
            i <= n,
            out@.len() == i,
            forall|j: int| 0 <= j < i ==> process_record_matches(#[trigger] out@[j], all[j]),
        decreases n - i,
    {
        let reading = rest.remove(0);
        proof {
            assert(reading == all[i as int]);
            assert(rest@ =~= all.subrange(i + 1, n as int));
        }
        out.push(process_record_from_reading(reading));
        i = i + 1;
    }
    out
}

/// Ends the process with the given id. A pid that names no live
/// process is a satisfied post-condition, not an error: the call
/// always reports success.
pub fn end_process(pid: i32) -> (r: Result<(), String>)
    ensures
        r is Ok,
{
    if pid < 0 {
        // No live process carries a negative id: already ended.
        return Ok(());
    }
    let mut sys = probe::system_new();
    probe::system_refresh_processes(&mut sys);
    match probe::system_process(&sys, pid as usize) {
        Some(p) => {
            let _signalled = probe::process_kill(p);
            Ok(())
        },
        None => Ok(()),
    }
}

} // verus!
