use host_telemetry::sampler::{PerformanceLogRow, SamplerError, SamplerState, log_row_from_snapshot};
use host_telemetry::snapshot::{CpuSample, DiskReading, GpuRecord, compose_snapshot};

fn row(ts: &str) -> PerformanceLogRow {
    PerformanceLogRow {
        timestamp: String::from(ts),
        cpu_hundredths: 5000,
        memory_used: 10,
        memory_total: 20,
        disk_used: 30,
        disk_total: 40,
    }
}

#[test]
fn second_start_reports_already_active() {
    let mut s = SamplerState::new();
    assert!(!s.is_active());
    assert!(s.start(1).is_ok());
    assert!(s.is_active());
    assert_eq!(s.start(1), Err(SamplerError::AlreadyActive));
    assert!(s.is_active());
}

#[test]
fn start_after_stop_is_allowed_again() {
    let mut s = SamplerState::new();
    assert!(s.start(2).is_ok());
    s.stop();
    assert!(!s.is_active());
    assert!(s.start(3).is_ok());
    assert_eq!(s.interval_seconds, 3);
}

#[test]
fn record_row_appends_only_while_active() {
    let mut s = SamplerState::new();
    assert!(!s.record_row(row("t0")));
    assert_eq!(s.row_count(), 0);
    s.start(1).unwrap();
    assert!(s.record_row(row("t1")));
    assert!(s.record_row(row("t2")));
    assert_eq!(s.row_count(), 2);
    s.stop();
    assert!(!s.record_row(row("t3")));
    assert_eq!(s.row_count(), 2);
}

#[test]
fn clear_while_active_fails_and_keeps_log() {
    let mut s = SamplerState::new();
    s.start(1).unwrap();
    s.record_row(row("t1"));
    let before = s.row_count();
    assert_eq!(s.clear_log(), Err(SamplerError::ActiveError));
    assert_eq!(s.row_count(), before);
    s.stop();
    assert_eq!(s.clear_log(), Ok(()));
    assert_eq!(s.row_count(), 0);
}

#[test]
fn get_log_twice_returns_identical_sequences() {
    let mut s = SamplerState::new();
    s.start(1).unwrap();
    s.record_row(row("t1"));
    s.record_row(row("t2"));
    let first = s.get_log();
    let second = s.get_log();
    assert_eq!(first, second);
}

#[test]
fn get_log_returns_a_copy_not_a_view() {
    let mut s = SamplerState::new();
    s.start(1).unwrap();
    s.record_row(row("t1"));
    let copy = s.get_log();
    s.record_row(row("t2"));
    assert_eq!(copy.len(), 1);
    assert_eq!(s.row_count(), 2);
    assert_eq!(copy[0].timestamp, "t1");
}

#[test]
fn log_row_aggregates_disks() {
    let cpu = CpuSample {
        usage_hundredths: 4321,
        name: String::from("cpu"),
        cores: 2,
        frequency_mhz: None,
        threads: None,
        temperature_centi: None,
        processes: None,
        handles: None,
        uptime_seconds: None,
    };
    let disks = vec![
        DiskReading {
            name: String::from("a"),
            mount_point: String::from("/a"),
            total: 100,
            available: 40,
            kind: String::from("SSD"),
        },
        DiskReading {
            name: String::from("b"),
            mount_point: String::from("/b"),
            total: 50,
            available: 50,
            kind: String::from("HDD"),
        },
    ];
    let gpus: Vec<GpuRecord> = Vec::new();
    let snap = compose_snapshot(1000, 700, 300, cpu, disks, gpus);
    let row = log_row_from_snapshot(String::from("12:00:00"), &snap);
    assert_eq!(row.timestamp, "12:00:00");
    assert_eq!(row.cpu_hundredths, 4321);
    assert_eq!(row.memory_used, 700);
    assert_eq!(row.memory_total, 1000);
    assert_eq!(row.disk_used, 60);
    assert_eq!(row.disk_total, 150);
}

#[test]
fn log_row_disk_sum_saturates() {
    let cpu = CpuSample {
        usage_hundredths: 0,
        name: String::from("cpu"),
        cores: 1,
        frequency_mhz: None,
        threads: None,
        temperature_centi: None,
        processes: None,
        handles: None,
        uptime_seconds: None,
    };
    let disks = vec![
        DiskReading {
            name: String::from("a"),
            mount_point: String::from("/a"),
            total: u64::MAX,
            available: 0,
            kind: String::from("SSD"),
        },
        DiskReading {
            name: String::from("b"),
            mount_point: String::from("/b"),
            total: 5,
            available: 0,
            kind: String::from("SSD"),
        },
    ];
    let gpus: Vec<GpuRecord> = Vec::new();
    let snap = compose_snapshot(0, 0, 0, cpu, disks, gpus);
    let row = log_row_from_snapshot(String::from("t"), &snap);
    assert_eq!(row.disk_used, u64::MAX);
    assert_eq!(row.disk_total, u64::MAX);
}
