use b2_uploader::progress::FileNetworkStats;
use b2_uploader::time_series::{RollingTimeSeries, TimeSeriesDataPoint};

#[test]
fn samples_age_out_of_the_window() {
    let mut buf: RollingTimeSeries<4> = RollingTimeSeries::new(1000);
    buf.add_value(10, 0);
    buf.add_value(20, 500);
    let pts = buf.get_valid_points(600);
    assert_eq!(pts.len(), 2);
    // at 1200 the first sample has aged past the 1000 ms window
    let pts = buf.get_valid_points(1200);
    assert_eq!(pts.len(), 1);
    assert_eq!(pts[0].data, 20);
}

#[test]
fn full_buffer_evicts_the_oldest_sample() {
    let mut buf: RollingTimeSeries<2> = RollingTimeSeries::new(10_000);
    buf.add_value(1, 100);
    buf.add_value(2, 200);
    buf.add_value(3, 300);
    let pts = buf.get_valid_points(400);
    assert_eq!(pts.len(), 2);
    let values: Vec<u64> = pts.iter().map(|p| p.data).collect();
    assert!(values.contains(&2) && values.contains(&3));
}

#[test]
fn aged_slot_is_reused_before_eviction() {
    let mut buf: RollingTimeSeries<2> = RollingTimeSeries::new(1000);
    buf.add_value(1, 0);
    buf.add_value(2, 900);
    // at 1500 the first sample is stale; the new one takes its slot
    buf.add_value(3, 1500);
    let pts = buf.get_valid_points(1500);
    let values: Vec<u64> = pts.iter().map(|p| p.data).collect();
    assert!(values.contains(&2) && values.contains(&3));
    assert!(!values.contains(&1));
}

#[test]
fn data_point_keeps_value_and_time() {
    let p = TimeSeriesDataPoint::new(7, 42);
    assert_eq!(p.data, 7);
    assert_eq!(p.time_ms, 42);
}

#[test]
fn throughput_is_bytes_over_window_span() {
    let mut stats = FileNetworkStats::new(10_000, 0);
    stats.add_done_bytes(1000, 0);
    stats.add_done_bytes(1000, 500);
    // 2000 bytes since the oldest sample 1000 ms ago
    assert_eq!(stats.bytes_per_second(1000), 2000);
    assert_eq!(stats.done, 2000);
}

#[test]
fn throughput_is_zero_without_samples() {
    let stats = FileNetworkStats::new(10_000, 0);
    assert_eq!(stats.bytes_per_second(100), 0);
}

#[test]
fn eta_divides_remaining_bytes_by_throughput() {
    let mut stats = FileNetworkStats::new(10_000, 0);
    stats.add_done_bytes(1000, 0);
    stats.add_done_bytes(1000, 500);
    // 8000 bytes left at 2000 bytes per second
    assert_eq!(stats.estimated_time(1000), 4);
}

#[test]
fn eta_uses_nominal_rate_when_idle() {
    let stats = FileNetworkStats::new(60, 0);
    // no samples: a nominal one byte per second avoids dividing by zero
    assert_eq!(stats.estimated_time(100), 60);
}

#[test]
fn percentage_in_basis_points() {
    let mut stats = FileNetworkStats::new(200, 0);
    stats.add_done_bytes(50, 0);
    assert_eq!(stats.percentage(), 2500);
    let empty = FileNetworkStats::new(0, 0);
    assert_eq!(empty.percentage(), 10_000);
}

#[test]
fn rollback_takes_back_exactly_the_credited_bytes() {
    let mut stats = FileNetworkStats::new(1000, 0);
    stats.add_done_bytes(300, 10);
    stats.rollback_bytes(300);
    assert_eq!(stats.done, 0);
}

#[test]
fn snapshot_reports_all_derived_figures() {
    let mut stats = FileNetworkStats::new(4000, 0);
    stats.set_start_time(100);
    stats.add_done_bytes(1000, 200);
    stats.add_done_bytes(1000, 700);
    let snap = stats.current_stats(1200);
    assert_eq!(snap.done, 2000);
    assert_eq!(snap.total, 4000);
    assert_eq!(snap.bps, 2000);
    assert_eq!(snap.eta_secs, 1);
    assert_eq!(snap.percentage_basis_points, 5000);
    assert_eq!(snap.elapsed_ms, 1100);
}
