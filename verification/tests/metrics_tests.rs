use matter_osi_metrics::clock::timestamp_of;
use matter_osi_metrics::decimal::decimal_text;
use matter_osi_metrics::metrics::{
    compression_savings, fits_total, presentation_overhead_of, structure_overhead,
    MatterOSIMetrics,
    APPLICATION_OVERHEAD, SESSION_OVERHEAD, TRANSPORT_OVERHEAD,
};

fn measure(len: usize) -> MatterOSIMetrics {
    let payload = vec![0xABu8; len];
    MatterOSIMetrics::with_timestamp(1_700_000_000_000, 1, "ON_COMMAND", &payload)
}

fn efficiency(m: &MatterOSIMetrics) -> f32 {
    (m.payload_size as f32 / m.total_size as f32) * 100.0
}

#[test]
fn empty_payload_breakdown() {
    let m = measure(0);
    assert_eq!(m.payload_size, 0);
    assert_eq!(m.presentation_overhead, 8);
    assert_eq!(m.total_size, 108);
    assert_eq!(m.transport_overhead, 40);
    assert_eq!(m.session_overhead, 35);
    assert_eq!(m.application_overhead, 25);
    assert_eq!(efficiency(&m), 0.0);
    assert_eq!(100.0 - efficiency(&m), 100.0);
}

#[test]
fn hundred_byte_payload_breakdown() {
    let m = measure(100);
    assert_eq!(m.presentation_overhead, 8);
    assert_eq!(m.total_size, 208);
    let e = efficiency(&m);
    assert!((e - 48.1).abs() < 0.05);
    assert_eq!(format!("{:.1}", e), "48.1");
}

#[test]
fn total_is_sum_of_parts() {
    for len in [0usize, 1, 9, 10, 19, 20, 99, 100, 101, 1000, 4096, 65535] {
        let m = measure(len);
        assert_eq!(m.payload_size, len);
        assert_eq!(
            m.total_size,
            len + 40 + 35 + m.presentation_overhead + 25
        );
        assert_eq!(
            m.total_size,
            m.payload_size
                + m.transport_overhead
                + m.session_overhead
                + m.presentation_overhead
                + m.application_overhead
        );
        assert_eq!(m.protocol_overhead(), 100 + m.presentation_overhead);
        let e = efficiency(&m);
        assert!(((e + (100.0 - e)) - 100.0).abs() < 1e-4);
    }
}

#[test]
fn overhead_components_at_named_lengths() {
    assert_eq!(structure_overhead(0), 0);
    assert_eq!(compression_savings(0), 0);
    assert_eq!(structure_overhead(10), 1);
    assert_eq!(compression_savings(10), 0);
    assert_eq!(structure_overhead(20), 2);
    assert_eq!(compression_savings(20), 1);
    assert_eq!(structure_overhead(100), 10);
    assert_eq!(compression_savings(100), 5);
    for len in [0usize, 10, 20, 100] {
        let payload = vec![0u8; len];
        assert_eq!(MatterOSIMetrics::calculate_tlv_overhead(&payload), 8);
    }
}

#[test]
fn overhead_rises_past_the_floor() {
    assert_eq!(MatterOSIMetrics::calculate_tlv_overhead(&vec![0u8; 89]), 7usize.max(8));
    assert_eq!(MatterOSIMetrics::calculate_tlv_overhead(&vec![0u8; 90]), 8);
    assert_eq!(MatterOSIMetrics::calculate_tlv_overhead(&vec![0u8; 109]), 8);
    assert_eq!(MatterOSIMetrics::calculate_tlv_overhead(&vec![0u8; 110]), 9);
    assert_eq!(MatterOSIMetrics::calculate_tlv_overhead(&vec![0u8; 200]), 13);
    assert_eq!(MatterOSIMetrics::calculate_tlv_overhead(&vec![0u8; 1000]), 53);
    assert_eq!(measure(1000).total_size, 1153);
}

#[test]
fn overhead_floor_and_monotone() {
    let mut last = 0usize;
    for len in 0usize..2000 {
        let po = MatterOSIMetrics::calculate_tlv_overhead(&vec![0u8; len]);
        assert!(po >= 8);
        assert!(po >= last);
        assert!(structure_overhead(len) >= compression_savings(len));
        last = po;
    }
}

#[test]
fn overhead_by_length_alone() {
    assert_eq!(presentation_overhead_of(0), 8);
    assert_eq!(presentation_overhead_of(100), 8);
    assert_eq!(presentation_overhead_of(110), 9);
    assert_eq!(presentation_overhead_of(2000), 103);
    assert_eq!(presentation_overhead_of(usize::MAX), 3 + usize::MAX / 10 - usize::MAX / 20);
}

#[test]
fn constants_are_fixed() {
    assert_eq!(TRANSPORT_OVERHEAD, 40);
    assert_eq!(SESSION_OVERHEAD, 35);
    assert_eq!(APPLICATION_OVERHEAD, 25);
}

#[test]
fn fits_total_limits() {
    assert!(fits_total(0));
    assert!(fits_total(1 << 20));
    assert!(!fits_total(usize::MAX));
    assert!(!fits_total(usize::MAX - 100));
}

#[test]
fn with_timestamp_keeps_inputs() {
    let m = MatterOSIMetrics::with_timestamp(42, 7, "DEVICE_INFO", &[1, 2, 3]);
    assert_eq!(m.timestamp, 42);
    assert_eq!(m.message_id, 7);
    assert_eq!(m.message_type, "DEVICE_INFO");
    assert_eq!(m.payload_size, 3);
    assert_eq!(m.total_size, 111);
}

#[test]
fn stamped_follows_the_reading() {
    assert!(MatterOSIMetrics::stamped(None, 1, "ON_COMMAND", &[0u8; 4]).is_none());
    let m = MatterOSIMetrics::stamped(Some(99), 3, "OFF_COMMAND", &[0u8; 4]).unwrap();
    assert_eq!(m.timestamp, 99);
    assert_eq!(m.message_id, 3);
    assert_eq!(m.message_type, "OFF_COMMAND");
    assert_eq!(m.total_size, 112);
}

#[test]
fn new_reads_the_clock() {
    let m = MatterOSIMetrics::new(5, "LEVEL_CONTROL", &[0u8; 6]).unwrap();
    // Any present-day clock reads well past the year 2001.
    assert!(m.timestamp > 1_000_000_000_000);
    assert_eq!(m.message_id, 5);
    assert_eq!(m.message_type, "LEVEL_CONTROL");
    assert_eq!(m.payload_size, 6);
    assert_eq!(m.total_size, 114);
}

#[test]
fn decimal_text_values() {
    assert_eq!(decimal_text(0), "0");
    assert_eq!(decimal_text(7), "7");
    assert_eq!(decimal_text(10), "10");
    assert_eq!(decimal_text(108), "108");
    assert_eq!(decimal_text(1_700_000_000_000), "1700000000000");
    assert_eq!(decimal_text(u64::MAX), "18446744073709551615");
    for n in [1u64, 9, 11, 99, 100, 101, 999, 1000, 65535, 4294967295] {
        assert_eq!(decimal_text(n), n.to_string());
    }
}

#[test]
fn timestamp_follows_the_reading() {
    assert_eq!(timestamp_of(None), None);
    assert_eq!(timestamp_of(Some(0)), Some(0));
    assert_eq!(timestamp_of(Some(1_700_000_000_123)), Some(1_700_000_000_123));
    assert_eq!(timestamp_of(Some(u64::MAX as u128)), Some(u64::MAX));
    assert_eq!(timestamp_of(Some(u64::MAX as u128 + 1)), Some(0));
    assert_eq!(timestamp_of(Some((1u128 << 64) + 7)), Some(7));
    assert_eq!(timestamp_of(Some(u128::MAX)), Some(u64::MAX));
}
