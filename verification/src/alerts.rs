//! Threshold alert decisions.
//!
//! Given one set of readings and the caller's thresholds (all in
//! hundredths of a percent), decides which alert conditions fire.
//! Rendering the alert messages is presentation work and stays with
//! the caller.

use vstd::prelude::*;
use crate::percent::{percent_sat, percent_hundredths};
use crate::snapshot::DiskRecord;

verus! {

/// Which conditions fired: CPU over its threshold, memory usage over
/// its threshold, and one flag per disk in the order given.
pub struct AlertFlags {
    pub cpu_high: bool,
    pub memory_low: bool,
    pub disks_low: Vec<bool>,
}

/// Decides every alert condition for one set of readings.
pub fn check_alert_conditions(
    cpu_hundredths: u64,
    cpu_threshold_hundredths: u64,
    memory_used: u64,
    memory_total: u64,
    memory_threshold_hundredths: u64,
    disks: &Vec<DiskRecord>,
    disk_threshold_hundredths: u64,
) -> (r: AlertFlags)
    ensures
        r.cpu_high == (cpu_hundredths > cpu_threshold_hundredths),
        r.memory_low == (percent_sat(memory_used as int, memory_total as int)
            > memory_threshold_hundredths),
        r.disks_low@.len() == disks@.len(),
        forall|i: int|
            0 <= i < disks@.len() ==> r.disks_low@[i] == (disks@[i].percent_hundredths
                > disk_threshold_hundredths),
{
    let cpu_high = cpu_hundredths > cpu_threshold_hundredths;
    let memory_pct = percent_hundredths(memory_used, memory_total);
    let memory_low = memory_pct > memory_threshold_hundredths;
    let mut disks_low: Vec<bool> = Vec::new();
    let mut i: usize = 0;
    let n = disks.len();
    while i < n
        invariant
            n == disks@.len(),
            i <= n,
            disks_low@.len() == i,
            forall|j: int|
                0 <= j < i ==> disks_low@[j] == (disks@[j].percent_hundredths
                    > disk_threshold_hundredths),
        decreases n - i,
    {
        disks_low.push(disks[i].percent_hundredths > disk_threshold_hundredths);
        i = i + 1;
    }
    AlertFlags { cpu_high, memory_low, disks_low }
}

} // verus!
