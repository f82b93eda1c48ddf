use base64::Engine;
use host_telemetry::alerts::check_alert_conditions;
use host_telemetry::health::disk_health_from_lines;
use host_telemetry::icon::{bgra_flip_to_rgba, extract_icon_base64, render_icon_png_base64};
use host_telemetry::snapshot::{DiskReading, DiskRecord};

#[test]
fn extract_icon_reports_capability_absent() {
    assert!(extract_icon_base64("/bin/ls").is_err());
}

#[test]
fn flip_reorders_channels_and_rows() {
    // One column, two rows, bottom-up BGRA input.
    let pixels = vec![
        1u8, 2, 3, 4, // stored first: becomes the bottom row
        5, 6, 7, 8, // stored second: becomes the top row
    ];
    let out = bgra_flip_to_rgba(&pixels, 1, 2);
    // Top row of the output comes from the second stored pixel,
    // with B,G,R,A reordered to R,G,B,A.
    assert_eq!(out, vec![7u8, 6, 5, 8, 3, 2, 1, 4]);
}

#[test]
fn rendered_icon_is_a_png_that_decodes_back() {
    // A 2x1 bitmap: blue-ish pixel then red-ish pixel, BGRA.
    let pixels = vec![
        255u8, 0, 0, 255, // blue in BGRA
        0, 0, 255, 255, // red in BGRA
    ];
    let payload = render_icon_png_base64(&pixels, 2, 1).expect("encoding failed");
    let png_bytes = base64::engine::general_purpose::STANDARD
        .decode(payload)
        .expect("payload is not base64");
    assert_eq!(&png_bytes[..8], &[0x89, 0x50, 0x4e, 0x47, 0x0d, 0x0a, 0x1a, 0x0a]);
    let img = image::load_from_memory(&png_bytes).expect("payload is not a png").to_rgba8();
    assert_eq!(img.width(), 2);
    assert_eq!(img.height(), 1);
    // RGBA after the reorder: first pixel blue, second red.
    assert_eq!(img.get_pixel(0, 0).0, [0, 0, 255, 255]);
    assert_eq!(img.get_pixel(1, 0).0, [255, 0, 0, 255]);
}

#[test]
fn health_scan_finds_and_trims_the_verdict_line() {
    let lines = vec![
        String::from("smartctl 7.2 2020-12-30 r5155"),
        String::from("=== START OF READ SMART DATA SECTION ==="),
        String::from("  SMART overall-health self-assessment test result: PASSED  "),
        String::from("trailer"),
    ];
    assert_eq!(
        disk_health_from_lines(&lines).as_deref(),
        Some("SMART overall-health self-assessment test result: PASSED")
    );
}

#[test]
fn health_scan_without_verdict_is_none() {
    let lines = vec![String::from("no verdict here"), String::from("")];
    assert!(disk_health_from_lines(&lines).is_none());
}

#[test]
fn alert_conditions_fire_exactly_on_thresholds() {
    let disks = vec![
        DiskRecord::from_reading(DiskReading {
            name: String::from("a"),
            mount_point: String::from("/a"),
            total: 100,
            available: 5, // 95% used
            kind: String::from("SSD"),
        }),
        DiskRecord::from_reading(DiskReading {
            name: String::from("b"),
            mount_point: String::from("/b"),
            total: 100,
            available: 60, // 40% used
            kind: String::from("SSD"),
        }),
    ];
    let flags = check_alert_conditions(9100, 9000, 50, 100, 6000, &disks, 9000);
    assert!(flags.cpu_high);
    assert!(!flags.memory_low); // 50% is under the 60% threshold
    assert_eq!(flags.disks_low, vec![true, false]);
    let calm = check_alert_conditions(9000, 9000, 0, 0, 0, &disks, 9500);
    assert!(!calm.cpu_high); // equal is not over
    assert!(!calm.memory_low); // zero total derives 0%, never fires
    assert_eq!(calm.disks_low, vec![false, false]); // 95% is not over 95%
}
