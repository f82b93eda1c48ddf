//! Trusted platform probes.
//!
//! Each function here wraps one reading of operating-system state
//! through an outside crate. What comes back depends on the machine
//! and the moment, so no contract pins the values; the verified
//! composers take these readings as arguments and derive everything
//! else under exact contracts.

use vstd::prelude::*;
use crate::reconcile::AddrEntry;
use crate::netinfo::NetReading;
use crate::snapshot::DiskReading;

verus! {

#[verifier::external_type_specification]
#[verifier::external_body]
pub struct ExSystem(sysinfo::System);

#[verifier::external_type_specification]
#[verifier::external_body]
pub struct ExProcess(sysinfo::Process);

/// Relies on `sysinfo::System::new`: a system handle with nothing
/// refreshed yet.
#[verifier::external_body]
pub(crate) fn system_new() -> sysinfo::System {
    sysinfo::System::new()
}

/// Relies on `sysinfo::System::refresh_memory`: refreshes the memory
/// counters of the handle.
#[verifier::external_body]
pub(crate) fn system_refresh_memory(sys: &mut sysinfo::System) {
    sys.refresh_memory();
}

/// Relies on `sysinfo::System::total_memory`: total RAM in bytes, as
/// of the last refresh.
#[verifier::external_body]
pub(crate) fn system_total_memory(sys: &sysinfo::System) -> u64 {
    sys.total_memory()
}

/// Relies on `sysinfo::System::used_memory`: used RAM in bytes, as of
/// the last refresh.
#[verifier::external_body]
pub(crate) fn system_used_memory(sys: &sysinfo::System) -> u64 {
    sys.used_memory()
}

/// Relies on `sysinfo::System::available_memory`: available RAM in
/// bytes, as of the last refresh.
#[verifier::external_body]
pub(crate) fn system_available_memory(sys: &sysinfo::System) -> u64 {
    sys.available_memory()
}

/// Relies on `sysinfo::System::refresh_processes`: refreshes the
/// process table, dropping dead processes.
#[verifier::external_body]
pub(crate) fn system_refresh_processes(sys: &mut sysinfo::System) {
    sys.refresh_processes(sysinfo::ProcessesToUpdate::All, true);
}

/// Relies on `sysinfo::System::process` and `sysinfo::Pid::from`:
/// looks one process up by id.
#[verifier::external_body]
pub(crate) fn system_process<'a>(sys: &'a sysinfo::System, pid: usize) -> Option<
    &'a sysinfo::Process,
> {
    sys.process(sysinfo::Pid::from(pid))
}

/// Relies on `sysinfo::Process::kill`: asks the operating system to
/// end the process; whether the signal was sent.
#[verifier::external_body]
pub(crate) fn process_kill(p: &sysinfo::Process) -> bool {
    p.kill()
}

/// Relies on `sysinfo::Disks::new_with_refreshed_list` and the `Disk`
/// accessors `name`, `mount_point`, `total_space`, `available_space`
/// and `kind`: one raw reading per mounted disk.
#[verifier::external_body]
pub(crate) fn probe_disks() -> Vec<DiskReading> {
    sysinfo::Disks::new_with_refreshed_list()
        .list()
        .iter()
        .map(|d| DiskReading {
            name: d.name().to_string_lossy().into_owned(),
            mount_point: d.mount_point().to_string_lossy().into_owned(),
            total: d.total_space(),
            available: d.available_space(),
            kind: format!("{:?}", d.kind()),
        })
        .collect()
}

/// Relies on `sysinfo::Networks::new_with_refreshed_list` and the
/// `NetworkData` cumulative counters (`total_received`,
/// `total_transmitted`, `total_packets_received`,
/// `total_packets_transmitted`, `total_errors_on_received`,
/// `total_errors_on_transmitted`): one raw reading per interface, in
/// the enumeration order of the underlying map.
#[verifier::external_body]
pub(crate) fn probe_networks() -> Vec<NetReading> {
    sysinfo::Networks::new_with_refreshed_list()
        .list()
        .iter()
        .map(|(name, d)| NetReading {
            name: name.clone(),
            bytes_received: d.total_received(),
            bytes_transmitted: d.total_transmitted(),
            packets_received: d.total_packets_received(),
            packets_transmitted: d.total_packets_transmitted(),
            errors_received: d.total_errors_on_received(),
            errors_transmitted: d.total_errors_on_transmitted(),
        })
        .collect()
}

/// Relies on `get_if_addrs::get_if_addrs`: one entry per interface
/// address, with the address rendered by the std `Ipv4Addr`/`Ipv6Addr`
/// display. An enumeration failure yields no entries.
#[verifier::external_body]
pub(crate) fn probe_if_addrs() -> Vec<AddrEntry> {
    let mut out = Vec::new();
    if let Ok(ifaces) = get_if_addrs::get_if_addrs() {
        for iface in ifaces {
            let ip = match iface.addr {
                get_if_addrs::IfAddr::V4(a) => a.ip.to_string(),
                get_if_addrs::IfAddr::V6(a) => a.ip.to_string(),
            };
            out.push(AddrEntry { name: iface.name.clone(), ip });
        }
    }
    out
}

} // verus!
