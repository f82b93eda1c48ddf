//! The snapshot data model and its composer.
//!
//! A `SystemSnapshot` is an immutable aggregate of one sample per metric
//! family, taken at a single logical instant. Every percentage field is
//! derived with the zero-total rule of `percent`, and a disk's used
//! space is `total - available`, clamped at zero.

use vstd::prelude::*;
use crate::percent::{percent_sat, percent_hundredths};
use crate::probe;

verus! {

/// One memory reading: byte counts plus the derived usage percentage.
pub struct MemorySample {
    pub total: u64,
    pub used: u64,
    pub available: u64,
    pub percent_hundredths: u64,
}

impl MemorySample {
    /// The percentage field is derived from `used` and `total`.
    pub open spec fn wf(self) -> bool {
        self.percent_hundredths == percent_sat(self.used as int, self.total as int)
    }

    pub fn new(total: u64, used: u64, available: u64) -> (s: Self)
        ensures
            s.total == total,
            s.used == used,
            s.available == available,
            s.wf(),
    {
        MemorySample {
            total,
            used,
            available,
            percent_hundredths: percent_hundredths(used, total),
        }
    }
}

/// One CPU reading. The usage figure is a delta-derived percentage in
/// hundredths of a percent; fields that a platform cannot measure stay
/// `None` rather than carrying a sentinel.
pub struct CpuSample {
    pub usage_hundredths: u64,
    pub name: String,
    pub cores: usize,
    pub frequency_mhz: Option<u64>,
    pub threads: Option<u32>,
    pub temperature_centi: Option<i64>,
    pub processes: Option<usize>,
    pub handles: Option<usize>,
    pub uptime_seconds: Option<u64>,
}

/// One mounted disk: byte counts, the derived usage percentage and a
/// storage-medium classification.
pub struct DiskRecord {
    pub name: String,
    pub mount_point: String,
    pub total: u64,
    pub used: u64,
    pub available: u64,
    pub percent_hundredths: u64,
    pub kind: String,
}

/// What a disk probe hands over: the raw byte counts, before any
/// derivation.
pub struct DiskReading {
    pub name: String,
    pub mount_point: String,
    pub total: u64,
    pub available: u64,
    pub kind: String,
}

impl DiskRecord {
    /// Used space is the part of the total that is not available,
    /// clamped at zero when a probe reports more available than total.
    pub open spec fn spec_used(total: u64, available: u64) -> int {
        if available <= total {
            total - available
        } else {
            0
        }
    }

    /// Both derived fields follow from the raw counts.
    pub open spec fn wf(self) -> bool {
        &&& self.used == Self::spec_used(self.total, self.available)
        &&& self.percent_hundredths == percent_sat(self.used as int, self.total as int)
    }

    pub fn from_reading(reading: DiskReading) -> (d: Self)
        ensures
            d.name == reading.name,
            d.mount_point == reading.mount_point,
            d.total == reading.total,
            d.available == reading.available,
            d.kind == reading.kind,
            d.wf(),
    {
        let used: u64 = if reading.available <= reading.total {
            reading.total - reading.available
        } else {
            0
        };
        let percent: u64 = percent_hundredths(used, reading.total);
        DiskRecord {
            name: reading.name,
            mount_point: reading.mount_point,
            total: reading.total,
            used,
            available: reading.available,
            percent_hundredths: percent,
            kind: reading.kind,
        }
    }
}

/// Law: a disk record derived from a reading with `available <= total`
/// splits the total exactly between used and available space, and its
/// used space is never negative.
pub proof fn lemma_disk_split(d: DiskRecord)
    requires
        d.wf(),
        d.available <= d.total,
    ensures
        d.used + d.available == d.total,
        d.used >= 0,
{
}

/// One display adapter, as far as the platform reports it.
pub struct GpuRecord {
    pub name: String,
    pub adapter_ram: Option<u32>,
    pub driver_version: Option<String>,
    pub vram_usage: Option<u64>,
}

/// The aggregate of one sample per metric family.
pub struct SystemSnapshot {
    pub memory: MemorySample,
    pub cpu: CpuSample,
    pub disks: Vec<DiskRecord>,
    pub gpus: Vec<GpuRecord>,
}

impl SystemSnapshot {
    /// Every derived field in the snapshot follows the derivation
    /// rules of its family.
    pub open spec fn wf(self) -> bool {
        &&& self.memory.wf()
        &&& forall|i: int| 0 <= i < self.disks@.len() ==> (#[trigger] self.disks@[i]).wf()
    }
}

/// The display-adapter probe for a platform without an adapter
/// enumeration facility: collection degrades to an empty list rather
/// than failing.
pub fn probe_gpus() -> (v: Vec<GpuRecord>)
    ensures
        v@.len() == 0,
{
    Vec::new()
}

/// Assembles one snapshot from raw readings: derives the memory
/// percentage, turns each disk reading into a record, and takes the
/// CPU sample and GPU list as given.
pub fn compose_snapshot(
    memory_total: u64,
    memory_used: u64,
    memory_available: u64,
    cpu: CpuSample,
    disk_readings: Vec<DiskReading>,
    gpus: Vec<GpuRecord>,
) -> (s: SystemSnapshot)
    ensures
        s.wf(),
        s.memory.total == memory_total,
        s.memory.used == memory_used,
        s.memory.available == memory_available,
        s.cpu == cpu,
        s.gpus == gpus,
        s.disks@.len() == disk_readings@.len(),
        forall|i: int|
            0 <= i < disk_readings@.len() ==> {
                &&& (#[trigger] s.disks@[i]).name == disk_readings@[i].name
                &&& s.disks@[i].mount_point == disk_readings@[i].mount_point
                &&& s.disks@[i].total == disk_readings@[i].total
                &&& s.disks@[i].available == disk_readings@[i].available
                &&& s.disks@[i].kind == disk_readings@[i].kind
            },
{
    let memory = MemorySample::new(memory_total, memory_used, memory_available);
    let mut disks: Vec<DiskRecord> = Vec::new();
    let mut readings = disk_readings;
    let ghost all_readings = readings@;
    let mut i: usize = 0;
    let n = readings.len();
    while i < n
        invariant
            n == all_readings.len(),
            readings@ =~= all_readings.subrange(i as int, n as int),
            i <= n,
            disks@.len() == i,
            forall|j: int|
                0 <= j < i ==> {
                    &&& (#[trigger] disks@[j]).wf()
                    &&& disks@[j].name == all_readings[j].name
                    &&& disks@[j].mount_point == all_readings[j].mount_point
                    &&& disks@[j].total == all_readings[j].total
                    &&& disks@[j].available == all_readings[j].available
                    &&& disks@[j].kind == all_readings[j].kind
                },
        decreases n - i,
    {
        let reading = readings.remove(0);
        proof {
            assert(reading == all_readings[i as int]);
            assert(readings@ =~= all_readings.subrange(i + 1, n as int));
        }
        disks.push(DiskRecord::from_reading(reading));
        i = i + 1;
    }
    SystemSnapshot { memory, cpu, disks, gpus }
}

/// The on-demand overview command: probes memory and disks here and
/// composes the snapshot. The CPU sample is taken by the caller, whose
/// duty the delta-derived usage figure is (two readings around a short
/// pause); the display-adapter list degrades to empty on this
/// platform. Whatever the probes report, every derived field of the
/// result follows the derivation rules.
pub fn get_system_overview(cpu: CpuSample) -> (s: SystemSnapshot)
    ensures
        s.wf(),
        s.cpu == cpu,
        s.gpus@.len() == 0,
{
    let mut sys = probe::system_new();
    probe::system_refresh_memory(&mut sys);
    let total = probe::system_total_memory(&sys);
    let used = probe::system_used_memory(&sys);
    let available = probe::system_available_memory(&sys);
    let disks = probe::probe_disks();
    let gpus = probe_gpus();
    compose_snapshot(total, used, available, cpu, disks, gpus)
}

} // verus!
