//! The background sampler's state machine.
//!
//! Exactly one `SamplerState` exists per process lifetime: a flag that
//! gates the single background loop, and the growing log of rows the
//! loop appends. The flag is the sole cancellation mechanism; whoever
//! runs the loop checks it before every iteration and appends through
//! `record_row`, which refuses to grow the log once the flag is down.
//! All access to the pair (flag, log) is meant to happen under one
//! mutual-exclusion primitive, held by the caller that owns the state.

use vstd::prelude::*;
use crate::snapshot::{DiskRecord, SystemSnapshot};

verus! {

/// Sum of the used bytes over a disk set.
pub open spec fn disk_used_sum(disks: Seq<DiskRecord>) -> int
    decreases disks.len(),
{
    if disks.len() == 0 {
        0
    } else {
        disk_used_sum(disks.drop_last()) + disks.last().used
    }
}

/// Sum of the total bytes over a disk set.
pub open spec fn disk_total_sum(disks: Seq<DiskRecord>) -> int
    decreases disks.len(),
{
    if disks.len() == 0 {
        0
    } else {
        disk_total_sum(disks.drop_last()) + disks.last().total
    }
}

/// A sum clipped to what a `u64` can carry.
pub open spec fn clip_u64(v: int) -> int {
    if v > u64::MAX {
        u64::MAX as int
    } else {
        v
    }
}

/// Adds the used and total bytes of every disk, saturating at what a
/// `u64` can carry.
fn sum_disks(disks: &Vec<DiskRecord>) -> (r: (u64, u64))
    ensures
        r.0 == clip_u64(disk_used_sum(disks@)),
        r.1 == clip_u64(disk_total_sum(disks@)),
{
    let mut used: u64 = 0;
    let mut total: u64 = 0;
    let mut i: usize = 0;
    let n = disks.len();
    while i < n
        invariant
            n == disks@.len(),
            i <= n,
            used == clip_u64(disk_used_sum(disks@.subrange(0, i as int))),
            total == clip_u64(disk_total_sum(disks@.subrange(0, i as int))),
        decreases n - i,
    {
        let ghost sub = disks@.subrange(0, i as int);
        let ghost sub2 = disks@.subrange(0, i + 1);
        let d_used = disks[i].used;
        let d_total = disks[i].total;
        used = if used <= u64::MAX - d_used {
            used + d_used
        } else {
            u64::MAX
        };
        total = if total <= u64::MAX - d_total {
            total + d_total
        } else {
            u64::MAX
        };
        proof {
            assert(sub2.drop_last() =~= sub);
            assert(sub2.last() == disks@[i as int]);
        }
        i = i + 1;
    }
    proof {
        assert(disks@.subrange(0, n as int) =~= disks@);
    }
    (used, total)
}

/// Derives the log row of one tick from a snapshot: the CPU usage,
/// the memory counters, and the disk counters aggregated over every
/// disk (saturating), under the timestamp the caller rendered.
pub fn log_row_from_snapshot(timestamp: String, s: &SystemSnapshot) -> (row: PerformanceLogRow)
    ensures
        row.timestamp == timestamp,
        row.cpu_hundredths == s.cpu.usage_hundredths,
        row.memory_used == s.memory.used,
        row.memory_total == s.memory.total,
        row.disk_used == clip_u64(disk_used_sum(s.disks@)),
        row.disk_total == clip_u64(disk_total_sum(s.disks@)),
{
    let (disk_used, disk_total) = sum_disks(&s.disks);
    PerformanceLogRow {
        timestamp,
        cpu_hundredths: s.cpu.usage_hundredths,
        memory_used: s.memory.used,
        memory_total: s.memory.total,
        disk_used,
        disk_total,
    }
}

/// One row of the performance log: a timestamp and the aggregate
/// readings of its tick. Rows are immutable once appended.
#[derive(PartialEq, Eq, Debug)]
pub struct PerformanceLogRow {
    pub timestamp: String,
    pub cpu_hundredths: u64,
    pub memory_used: u64,
    pub memory_total: u64,
    pub disk_used: u64,
    pub disk_total: u64,
}

impl Clone for PerformanceLogRow {
    fn clone(&self) -> (r: Self)
        ensures
            r == *self,
    {
        PerformanceLogRow {
            timestamp: self.timestamp.clone(),
            cpu_hundredths: self.cpu_hundredths,
            memory_used: self.memory_used,
            memory_total: self.memory_total,
            disk_used: self.disk_used,
            disk_total: self.disk_total,
        }
    }
}

/// The two state conflicts a caller can run into; both are recoverable
/// conditions, never a crash.
#[derive(Clone, Copy, PartialEq, Eq, Structural, Debug)]
pub enum SamplerError {
    /// `start` was called while the sampler was already running.
    AlreadyActive,
    /// `clear_log` was called while the sampler was running.
    ActiveError,
}

/// The sampler: the activity flag, the interval the current run was
/// started with, and the append-only log.
pub struct SamplerState {
    pub active: bool,
    pub interval_seconds: u64,
    pub log: Vec<PerformanceLogRow>,
}

impl SamplerState {
    /// The initial state: idle, with an empty log.
    pub fn new() -> (s: Self)
        ensures
            !s.active,
            s.interval_seconds == 0,
            s.log@.len() == 0,
    {
        SamplerState { active: false, interval_seconds: 0, log: Vec::new() }
    }

    /// Pure read of the activity flag.
    pub fn is_active(&self) -> (r: bool)
        ensures
            r == self.active,
    {
        self.active
    }

    /// Starts a sampling run: allowed only from idle. A second start
    /// while running reports `AlreadyActive` and changes nothing, so
    /// the background loop is never duplicated.
    pub fn start(&mut self, interval_seconds: u64) -> (r: Result<(), SamplerError>)
        ensures
            old(self).active ==> r == Result::<(), SamplerError>::Err(SamplerError::AlreadyActive)
                && *final(self) == *old(self),
            !old(self).active ==> {
                &&& r == Result::<(), SamplerError>::Ok(())
                &&& final(self).active
                &&& final(self).interval_seconds == interval_seconds
                &&& final(self).log == old(self).log
            },
    {
        if self.active {
            Err(SamplerError::AlreadyActive)
        } else {
            self.active = true;
            self.interval_seconds = interval_seconds;
            Ok(())
        }
    }

    /// Lowers the flag; allowed from any state. The background loop
    /// observes the flag on its own schedule, so cessation is
    /// eventual, not immediate — the log is not touched here.
    pub fn stop(&mut self)
        ensures
            !final(self).active,
            final(self).interval_seconds == old(self).interval_seconds,
            final(self).log == old(self).log,
    {
        self.active = false;
    }

    /// Appends one row on behalf of the background loop, but only
    /// while the flag is up: a loop that lost the race against `stop`
    /// leaves the log untouched. Returns whether the row was appended.
    pub fn record_row(&mut self, row: PerformanceLogRow) -> (appended: bool)
        ensures
            appended == old(self).active,
            old(self).active ==> {
                &&& final(self).log@ == old(self).log@.push(row)
                &&& final(self).active == old(self).active
                &&& final(self).interval_seconds == old(self).interval_seconds
            },
            !old(self).active ==> *final(self) == *old(self),
    {
        if self.active {
            self.log.push(row);
            true
        } else {
            false
        }
    }

    /// Returns a copy of the current rows, never a live view: the
    /// caller is unaffected by appends that happen afterwards.
    pub fn get_log(&self) -> (r: Vec<PerformanceLogRow>)
        ensures
            r@ == self.log@,
    {
        let mut out: Vec<PerformanceLogRow> = Vec::new();
        let mut i: usize = 0;
        let n = self.log.len();
        while i < n
            invariant
                n == self.log@.len(),
                i <= n,
                out@.len() == i,
                forall|j: int| 0 <= j < i ==> out@[j] == self.log@[j],
            decreases n - i,
        {
            out.push(self.log[i].clone());
            i = i + 1;
        }
        proof {
            assert(out@ =~= self.log@);
        }
        out
    }

    /// Number of rows in the log.
    pub fn row_count(&self) -> (r: usize)
        ensures
            r == self.log@.len(),
    {
        self.log.len()
    }

    /// Empties the log: allowed only while idle. While the sampler is
    /// running the call reports `ActiveError` and leaves the log
    /// exactly as it was, so no row the loop may still append is lost
    /// silently.
    pub fn clear_log(&mut self) -> (r: Result<(), SamplerError>)
        ensures
            old(self).active ==> r == Result::<(), SamplerError>::Err(SamplerError::ActiveError)
                && *final(self) == *old(self),
            !old(self).active ==> {
                &&& r == Result::<(), SamplerError>::Ok(())
                &&& !final(self).active
                &&& final(self).interval_seconds == old(self).interval_seconds
                &&& final(self).log@.len() == 0
            },
    {
        if self.active {
            Err(SamplerError::ActiveError)
        } else {
            self.log.clear();
            Ok(())
        }
    }
}

/// Law: reading the log is idempotent. Two reads of the same state
/// with no mutation in between return the same sequence of rows —
/// `get_log` promises a value equal to the state's log, so two such
/// values are equal to each other.
pub proof fn lemma_log_read_idempotent(
    s: SamplerState,
    first: Seq<PerformanceLogRow>,
    second: Seq<PerformanceLogRow>,
)
    requires
        first == s.log@,
        second == s.log@,
    ensures
        first == second,
{
}

} // verus!
