//! Network interface records.
//!
//! A record merges one counters-source reading (list A, the source of
//! truth for identity) with the addresses the reconciler associates
//! to it from the address-source entries (list B). Reachability is
//! derived purely from the resolved address set: an interface is
//! `Connected` exactly when at least one address resolved.

use vstd::prelude::*;
use crate::reconcile::{AddrEntry, candidate_ips, has_ip, strictly_sorted, resolve_addresses};
use crate::probe;

verus! {

/// Reachability, defined by "has at least one resolved address".
#[derive(Clone, Copy, PartialEq, Eq, Structural, Debug)]
pub enum LinkStatus {
    Connected,
    Disconnected,
}

/// One raw reading of an interface's cumulative traffic counters.
pub struct NetReading {
    pub name: String,
    pub bytes_received: u64,
    pub bytes_transmitted: u64,
    pub packets_received: u64,
    pub packets_transmitted: u64,
    pub errors_received: u64,
    pub errors_transmitted: u64,
}

/// One interface as presented to a caller: identity, reachability,
/// counters, the resolved addresses, and a capture timestamp. Fields
/// the counters source cannot measure stay `None`.
pub struct NetworkInterfaceRecord {
    pub name: String,
    pub status: LinkStatus,
    pub bytes_received: u64,
    pub bytes_transmitted: u64,
    pub packets_received: u64,
    pub packets_transmitted: u64,
    pub errors: u64,
    pub drops: u64,
    pub ip_addresses: Vec<String>,
    pub mac_address: Option<String>,
    pub interface_type: Option<String>,
    pub link_speed_mbps: Option<u32>,
    pub last_updated_unix: u64,
}

/// `a + b`, saturated to what a `u64` can carry.
pub open spec fn sat_add_u64(a: u64, b: u64) -> int {
    if a + b > u64::MAX {
        u64::MAX as int
    } else {
        a + b
    }
}

/// How a composed record relates to its reading: counters carried
/// over, errors summed, addresses exactly the reconciler's candidate
/// set (deduplicated and sorted), reachability from that set.
pub open spec fn record_matches(
    r: NetworkInterfaceRecord,
    reading: NetReading,
    entries: Seq<AddrEntry>,
    now_unix: u64,
) -> bool {
    &&& r.name == reading.name
    &&& r.bytes_received == reading.bytes_received
    &&& r.bytes_transmitted == reading.bytes_transmitted
    &&& r.packets_received == reading.packets_received
    &&& r.packets_transmitted == reading.packets_transmitted
    &&& r.errors == sat_add_u64(reading.errors_received, reading.errors_transmitted)
    &&& r.drops == 0
    &&& strictly_sorted(r.ip_addresses@)
    &&& forall|x: Seq<char>|
        #[trigger] has_ip(r.ip_addresses@, x) == candidate_ips(reading.name@, entries).contains(x)
    &&& (r.status == LinkStatus::Connected <==> r.ip_addresses@.len() > 0)
    &&& r.mac_address is None
    &&& r.interface_type is None
    &&& r.link_speed_mbps is None
    &&& r.last_updated_unix == now_unix
}

/// What holds of every record a composer hands out, whatever the
/// probes returned.
pub open spec fn record_wf(r: NetworkInterfaceRecord, now_unix: u64) -> bool {
    &&& strictly_sorted(r.ip_addresses@)
    &&& (r.status == LinkStatus::Connected <==> r.ip_addresses@.len() > 0)
    &&& r.last_updated_unix == now_unix
}

/// Builds one interface record from its counters reading and the
/// address entries.
pub fn compose_interface_record(
    reading: NetReading,
    entries: &Vec<AddrEntry>,
    now_unix: u64,
) -> (r: NetworkInterfaceRecord)
    ensures
        record_matches(r, reading, entries@, now_unix),
        record_wf(r, now_unix),
{
    let ips = resolve_addresses(reading.name.as_str(), entries);
    let status = if ips.len() > 0 {
        LinkStatus::Connected
    } else {
        LinkStatus::Disconnected
    };
    let errors = if reading.errors_received <= u64::MAX - reading.errors_transmitted {
        reading.errors_received + reading.errors_transmitted
    } else {
        u64::MAX
    };
    NetworkInterfaceRecord {
        name: reading.name,
        status,
        bytes_received: reading.bytes_received,
        bytes_transmitted: reading.bytes_transmitted,
        packets_received: reading.packets_received,
        packets_transmitted: reading.packets_transmitted,
        errors,
        drops: 0,
        ip_addresses: ips,
        mac_address: None,
        interface_type: None,
        link_speed_mbps: None,
        last_updated_unix: now_unix,
    }
}

/// Builds the full interface list: one record per counters reading,
/// each merged against the same address entries.
pub fn compose_network_records(
    readings: Vec<NetReading>,
    entries: &Vec<AddrEntry>,
    now_unix: u64,
) -> (r: Vec<NetworkInterfaceRecord>)
    ensures
        r@.len() == readings@.len(),
        forall|i: int|
            0 <= i < readings@.len() ==> record_matches(
                #[trigger] r@[i],
                readings@[i],
                entries@,
                now_unix,
            ),
{
    let mut out: Vec<NetworkInterfaceRecord> = Vec::new();
    let mut rest = readings;
    let ghost all = rest@;
    let mut i: usize = 0;
    let n = rest.len();
    while i < n
        invariant
            n == all.len(),
            rest@ =~= all.subrange(i as int, n as int),
            i <= n,
            out@.len() == i,
            forall|j: int|
                0 <= j < i ==> record_matches(#[trigger] out@[j], all[j], entries@, now_unix),
        decreases n - i,
    {
        let reading = rest.remove(0);
        proof {
            assert(reading == all[i as int]);
            assert(rest@ =~= all.subrange(i + 1, n as int));
        }
        out.push(compose_interface_record(reading, entries, now_unix));
        i = i + 1;
    }
    out
}

/// Takes the two enumerations from the platform and merges them: the
/// on-demand network command. Whatever the machine reports, every
/// record in the result is well-formed — addresses deduplicated and
/// sorted, reachability derived from the address set, and the given
/// capture timestamp.
pub fn get_network_info(now_unix: u64) -> (r: Vec<NetworkInterfaceRecord>)
    ensures
        forall|i: int| 0 <= i < r@.len() ==> record_wf(#[trigger] r@[i], now_unix),
{
    let readings = probe::probe_networks();
    let entries = probe::probe_if_addrs();
    compose_network_records(readings, &entries, now_unix)
}

} // verus!
