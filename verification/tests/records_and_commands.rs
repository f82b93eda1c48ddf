use host_telemetry::netinfo::{LinkStatus, NetReading, compose_interface_record, get_network_info};
use host_telemetry::procs::{ProcessReading, compose_process_records, end_process,
    process_record_from_reading};
use host_telemetry::reconcile::AddrEntry;
use host_telemetry::snapshot::{CpuSample, get_system_overview};

fn reading(name: &str) -> NetReading {
    NetReading {
        name: String::from(name),
        bytes_received: 111,
        bytes_transmitted: 222,
        packets_received: 3,
        packets_transmitted: 4,
        errors_received: 5,
        errors_transmitted: 6,
    }
}

#[test]
fn interface_record_carries_counters_and_addresses() {
    let entries = vec![
        AddrEntry { name: String::from("eth0"), ip: String::from("10.0.0.5") },
        AddrEntry { name: String::from("lo"), ip: String::from("127.0.0.1") },
    ];
    let r = compose_interface_record(reading("eth0"), &entries, 1700000000);
    assert_eq!(r.name, "eth0");
    assert_eq!(r.status, LinkStatus::Connected);
    assert_eq!(r.bytes_received, 111);
    assert_eq!(r.bytes_transmitted, 222);
    assert_eq!(r.packets_received, 3);
    assert_eq!(r.packets_transmitted, 4);
    assert_eq!(r.errors, 11);
    assert_eq!(r.drops, 0);
    assert_eq!(r.ip_addresses, vec![String::from("10.0.0.5")]);
    assert!(r.mac_address.is_none());
    assert!(r.interface_type.is_none());
    assert!(r.link_speed_mbps.is_none());
    assert_eq!(r.last_updated_unix, 1700000000);
}

#[test]
fn interface_with_no_addresses_is_disconnected() {
    let entries: Vec<AddrEntry> = vec![
        AddrEntry { name: String::from("lo"), ip: String::from("127.0.0.1") },
    ];
    // The fallback filters the only (loopback) address out, so the
    // resolved set is empty and the interface reads Disconnected.
    let r = compose_interface_record(reading("eth7"), &entries, 5);
    assert!(r.ip_addresses.is_empty());
    assert_eq!(r.status, LinkStatus::Disconnected);
}

#[test]
fn interface_error_sum_saturates() {
    let mut rd = reading("eth0");
    rd.errors_received = u64::MAX;
    rd.errors_transmitted = 10;
    let entries: Vec<AddrEntry> = Vec::new();
    let r = compose_interface_record(rd, &entries, 0);
    assert_eq!(r.errors, u64::MAX);
}

#[test]
fn live_network_info_is_well_formed() {
    let now = 1234567890;
    let records = get_network_info(now);
    for r in &records {
        assert_eq!(r.last_updated_unix, now);
        assert_eq!(r.status == LinkStatus::Connected, !r.ip_addresses.is_empty());
        for w in r.ip_addresses.windows(2) {
            assert!(w[0] < w[1]);
        }
    }
}

#[test]
fn process_record_normalizes_memory_to_megabytes() {
    let r = process_record_from_reading(ProcessReading {
        pid: 42,
        name: String::from("proc"),
        cpu_hundredths: 150,
        memory_bytes: 3 * 1048576 + 5,
        exe: Some(String::from("/bin/proc")),
    });
    assert_eq!(r.pid, 42);
    assert_eq!(r.name, "proc");
    assert_eq!(r.cpu_hundredths, 150);
    assert_eq!(r.memory_mb, 3);
    assert_eq!(r.exe.as_deref(), Some("/bin/proc"));
    assert!(r.icon.is_none());
}

#[test]
fn process_listing_keeps_order_and_length() {
    let readings = vec![
        ProcessReading {
            pid: 1,
            name: String::from("one"),
            cpu_hundredths: 0,
            memory_bytes: 1048576,
            exe: None,
        },
        ProcessReading {
            pid: 2,
            name: String::from("two"),
            cpu_hundredths: 10,
            memory_bytes: 0,
            exe: None,
        },
    ];
    let records = compose_process_records(readings);
    assert_eq!(records.len(), 2);
    assert_eq!(records[0].pid, 1);
    assert_eq!(records[0].memory_mb, 1);
    assert_eq!(records[1].pid, 2);
    assert_eq!(records[1].memory_mb, 0);
}

#[test]
fn end_process_of_missing_pid_is_success() {
    assert!(end_process(i32::MAX).is_ok());
}

#[test]
fn end_process_of_negative_pid_is_success() {
    assert!(end_process(-1).is_ok());
}

#[test]
fn live_overview_derives_percentages() {
    let cpu = CpuSample {
        usage_hundredths: 777,
        name: String::from("cpu"),
        cores: 1,
        frequency_mhz: None,
        threads: None,
        temperature_centi: None,
        processes: None,
        handles: None,
        uptime_seconds: None,
    };
    let s = get_system_overview(cpu);
    assert_eq!(s.cpu.usage_hundredths, 777);
    assert!(s.gpus.is_empty());
    if s.memory.total > 0 {
        let expected = (s.memory.used as u128) * 10000 / (s.memory.total as u128);
        assert_eq!(s.memory.percent_hundredths as u128, expected);
    } else {
        assert_eq!(s.memory.percent_hundredths, 0);
    }
    for d in &s.disks {
        if d.available <= d.total {
            assert_eq!(d.used + d.available, d.total);
        } else {
            assert_eq!(d.used, 0);
        }
    }
}
