use host_telemetry::percent::percent_hundredths;
use host_telemetry::snapshot::{
    CpuSample, DiskReading, DiskRecord, GpuRecord, MemorySample, compose_snapshot,
};

fn cpu_sample() -> CpuSample {
    CpuSample {
        usage_hundredths: 1234,
        name: String::from("test cpu"),
        cores: 4,
        frequency_mhz: Some(2400),
        threads: Some(8),
        temperature_centi: None,
        processes: Some(100),
        handles: None,
        uptime_seconds: Some(3600),
    }
}

#[test]
fn percent_zero_total_is_zero() {
    assert_eq!(percent_hundredths(0, 0), 0);
    assert_eq!(percent_hundredths(1, 0), 0);
    assert_eq!(percent_hundredths(u64::MAX, 0), 0);
}

#[test]
fn percent_exact_values() {
    assert_eq!(percent_hundredths(50, 200), 2500);
    assert_eq!(percent_hundredths(1, 3), 3333);
    assert_eq!(percent_hundredths(100, 100), 10000);
    assert_eq!(percent_hundredths(0, 7), 0);
}

#[test]
fn percent_over_hundred_and_saturation() {
    assert_eq!(percent_hundredths(200, 100), 20000);
    assert_eq!(percent_hundredths(u64::MAX, 1), u64::MAX);
}

#[test]
fn memory_sample_derives_percentage() {
    let m = MemorySample::new(200, 50, 150);
    assert_eq!(m.total, 200);
    assert_eq!(m.used, 50);
    assert_eq!(m.available, 150);
    assert_eq!(m.percent_hundredths, 2500);
}

#[test]
fn disk_record_splits_total() {
    let d = DiskRecord::from_reading(DiskReading {
        name: String::from("sda"),
        mount_point: String::from("/"),
        total: 1000,
        available: 400,
        kind: String::from("SSD"),
    });
    assert_eq!(d.name, "sda");
    assert_eq!(d.mount_point, "/");
    assert_eq!(d.total, 1000);
    assert_eq!(d.used, 600);
    assert_eq!(d.available, 400);
    assert_eq!(d.percent_hundredths, 6000);
    assert_eq!(d.kind, "SSD");
    assert_eq!(d.used + d.available, d.total);
}

#[test]
fn disk_record_clamps_used_at_zero() {
    let d = DiskRecord::from_reading(DiskReading {
        name: String::from("odd"),
        mount_point: String::from("/odd"),
        total: 100,
        available: 150,
        kind: String::from("Unknown"),
    });
    assert_eq!(d.used, 0);
    assert_eq!(d.percent_hundredths, 0);
}

#[test]
fn disk_record_zero_total_percentage_is_zero() {
    let d = DiskRecord::from_reading(DiskReading {
        name: String::from("empty"),
        mount_point: String::from("/e"),
        total: 0,
        available: 0,
        kind: String::from("Unknown"),
    });
    assert_eq!(d.used, 0);
    assert_eq!(d.percent_hundredths, 0);
}

#[test]
fn compose_snapshot_assembles_all_families() {
    let readings = vec![
        DiskReading {
            name: String::from("a"),
            mount_point: String::from("/a"),
            total: 10,
            available: 4,
            kind: String::from("HDD"),
        },
        DiskReading {
            name: String::from("b"),
            mount_point: String::from("/b"),
            total: 0,
            available: 0,
            kind: String::from("SSD"),
        },
    ];
    let gpus: Vec<GpuRecord> = Vec::new();
    let s = compose_snapshot(100, 25, 75, cpu_sample(), readings, gpus);
    assert_eq!(s.memory.percent_hundredths, 2500);
    assert_eq!(s.cpu.usage_hundredths, 1234);
    assert_eq!(s.cpu.cores, 4);
    assert_eq!(s.disks.len(), 2);
    assert_eq!(s.disks[0].name, "a");
    assert_eq!(s.disks[0].used, 6);
    assert_eq!(s.disks[0].percent_hundredths, 6000);
    assert_eq!(s.disks[1].percent_hundredths, 0);
    assert_eq!(s.gpus.len(), 0);
}
