use keyhunter::dedup::DedupFilter;
use keyhunter::encode::value_bytes;
use keyhunter::reporter::throughput;

#[test]
fn dedup_filter_reports_recorded_buffer_as_seen() {
    let mut f = DedupFilter::new(1000).expect("filter seed");
    let item = value_bytes(42);
    assert!(!f.check_and_set(&item), "a fresh filter has nothing recorded");
    assert!(f.check_and_set(&item), "a recorded buffer must be seen again");
}

#[test]
fn dedup_filter_acceptance_rate_is_near_its_target() {
    // Sized for a one-percent false-positive target: over fresh distinct
    // draws well under capacity, almost all are accepted.
    let mut f = DedupFilter::new(100_000).expect("filter seed");
    let mut accepted: u32 = 0;
    for v in 1..=1000u128 {
        if !f.check_and_set(&value_bytes(v)) {
            accepted += 1;
        }
    }
    assert!(
        accepted >= 950,
        "acceptance rate fell far below the false-positive target: {accepted}/1000"
    );
}

#[test]
fn throughput_reports_delta_per_interval() {
    let s = throughput(0, 3000, 30);
    assert_eq!(s.total, 3000);
    assert_eq!(s.delta, 3000);
    assert_eq!(s.rate, 100);
    let s2 = throughput(3000, 3450, 30);
    assert_eq!(s2.delta, 450);
    assert_eq!(s2.rate, 15);
}

#[test]
fn throughput_clamps_a_backward_pair_to_zero() {
    let s = throughput(10, 3, 30);
    assert_eq!(s.delta, 0);
    assert_eq!(s.rate, 0);
}
