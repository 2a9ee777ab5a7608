use kvload::stats::Stats;

fn sample(succ: u64, fail: u64, lat: u64) -> Stats {
    Stats { successful_requests: succ, failed_requests: fail, total_latency_ms: lat }
}

#[test]
fn new_is_zeroed() {
    let s = Stats::new();
    assert_eq!(s.successful_requests, 0);
    assert_eq!(s.failed_requests, 0);
    assert_eq!(s.total_latency_ms, 0);
}

#[test]
fn record_success_adds_latency() {
    let mut s = Stats::new();
    s.record_success(12);
    s.record_success(30);
    assert_eq!(s.successful_requests, 2);
    assert_eq!(s.failed_requests, 0);
    assert_eq!(s.total_latency_ms, 42);
}

#[test]
fn record_failure_adds_no_latency() {
    let mut s = Stats::new();
    s.record_failure();
    s.record_success(7);
    s.record_failure();
    assert_eq!(s.successful_requests, 1);
    assert_eq!(s.failed_requests, 2);
    assert_eq!(s.total_latency_ms, 7);
}

#[test]
fn merge_is_field_wise() {
    let mut a = sample(3, 1, 90);
    let b = sample(2, 4, 10);
    a.merge(&b);
    assert_eq!(a, sample(5, 5, 100));
}

#[test]
fn merge_any_order_same_total() {
    let parts = [sample(1, 2, 10), sample(30, 40, 500), sample(7, 0, 9)];
    let orders: [[usize; 3]; 6] =
        [[0, 1, 2], [0, 2, 1], [1, 0, 2], [1, 2, 0], [2, 0, 1], [2, 1, 0]];
    let mut totals = Vec::new();
    for order in orders.iter() {
        let mut t = Stats::new();
        for &i in order.iter() {
            t.merge(&parts[i]);
        }
        totals.push(t);
    }
    for t in totals.iter() {
        assert_eq!(*t, sample(38, 42, 519));
    }
}

#[test]
fn merge_groupings_agree() {
    let (a, b, c) = (sample(1, 2, 3), sample(4, 5, 6), sample(7, 8, 9));
    let mut left = a;
    left.merge(&b);
    left.merge(&c);
    let mut bc = b;
    bc.merge(&c);
    let mut right = a;
    right.merge(&bc);
    assert_eq!(left, right);
}

#[test]
fn avg_latency_zero_without_successes() {
    let s = sample(0, 17, 0);
    assert_eq!(s.avg_latency_ms(), (0, 0));
}

#[test]
fn avg_latency_exact_division() {
    let s = sample(4, 0, 100);
    assert_eq!(s.avg_latency_ms(), (25, 0));
}

#[test]
fn avg_latency_with_remainder() {
    let s = sample(4, 1, 103);
    assert_eq!(s.avg_latency_ms(), (25, 3));
}

#[test]
fn total_requests_counts_both() {
    let s = sample(4, 9, 100);
    assert_eq!(s.total_requests(), 13);
}

#[test]
fn total_of_folds_all_parts() {
    let parts = vec![sample(1, 0, 5), sample(2, 3, 40), sample(0, 0, 0), sample(10, 1, 100)];
    let t = kvload::stats::total_of(&parts);
    assert_eq!(t, sample(13, 4, 145));
}

#[test]
fn total_of_permuted_parts_same_total() {
    let parts = vec![sample(1, 0, 5), sample(2, 3, 40), sample(10, 1, 100)];
    let permuted = vec![sample(10, 1, 100), sample(1, 0, 5), sample(2, 3, 40)];
    assert_eq!(kvload::stats::total_of(&parts), kvload::stats::total_of(&permuted));
}

#[test]
fn total_of_empty_is_zero() {
    let parts: Vec<Stats> = Vec::new();
    assert_eq!(kvload::stats::total_of(&parts), Stats::new());
}
