use kvload::keys::{make_indexed_key, make_scoped_key, make_value, u64_to_string};
use kvload::plan::{plan_iteration, plan_iteration_with, seed_ops, Operation};
use kvload::workload::WorkloadType;

fn op_key(op: &Operation) -> &str {
    match op {
        Operation::Get { key } => key,
        Operation::Put { key, .. } => key,
        Operation::Delete { key } => key,
    }
}

#[test]
fn decimal_rendering_is_exact() {
    assert_eq!(u64_to_string(0), "0");
    assert_eq!(u64_to_string(7), "7");
    assert_eq!(u64_to_string(10), "10");
    assert_eq!(u64_to_string(12345), "12345");
    assert_eq!(u64_to_string(u64::MAX), "18446744073709551615");
}

#[test]
fn key_builders_are_exact() {
    assert_eq!(make_scoped_key("key_put_", 2, 5), "key_put_2_5");
    assert_eq!(make_indexed_key("hot_", 19), "hot_19");
    assert_eq!(make_value(42), "v42");
}

#[test]
fn putall_puts_then_deletes_same_key() {
    let ops = plan_iteration_with(WorkloadType::PutAll, 2, 5, 123, 456);
    assert_eq!(ops.len(), 2);
    match &ops[0] {
        Operation::Put { key, value } => {
            assert_eq!(key, "key_put_2_5");
            assert_eq!(value, "v5");
        },
        _ => panic!("first operation of a PutAll iteration must be a PUT"),
    }
    match &ops[1] {
        Operation::Delete { key } => assert_eq!(key, "key_put_2_5"),
        _ => panic!("second operation of a PutAll iteration must be a DELETE"),
    }
    assert_eq!(op_key(&ops[0]), op_key(&ops[1]));
}

#[test]
fn getall_reads_a_fresh_scoped_key() {
    let ops = plan_iteration_with(WorkloadType::GetAll, 3, 7, 0, 0);
    assert_eq!(ops.len(), 1);
    match &ops[0] {
        Operation::Get { key } => assert_eq!(key, "unique_3_7"),
        _ => panic!("a GetAll iteration must be a GET"),
    }
}

#[test]
fn getpopular_draws_only_from_the_ten_key_pool() {
    let pool: Vec<String> = (1..=10).map(|i| format!("popular_{}", i)).collect();
    for r1 in 0..100u32 {
        let ops = plan_iteration_with(WorkloadType::GetPopular, 4, 9, r1, 77);
        assert_eq!(ops.len(), 1);
        match &ops[0] {
            Operation::Get { key } => {
                assert_eq!(key, &format!("popular_{}", r1 % 10 + 1));
                assert!(pool.iter().any(|p| p == key));
            },
            _ => panic!("a GetPopular iteration must be a GET"),
        }
    }
}

#[test]
fn only_worker_zero_seeds_the_pool() {
    let ops = seed_ops(0);
    assert_eq!(ops.len(), 10);
    for (i, op) in ops.iter().enumerate() {
        match op {
            Operation::Put { key, value } => {
                assert_eq!(key, &format!("popular_{}", i + 1));
                assert_eq!(value, "val");
            },
            _ => panic!("seeding must consist of PUTs"),
        }
    }
    assert!(seed_ops(1).is_empty());
    assert!(seed_ops(9).is_empty());
}

#[test]
fn getput_branch_thresholds() {
    // r1 % 100 == 69: still the GET branch, key from the 20-key hot pool.
    let ops = plan_iteration_with(WorkloadType::GetPut, 1, 8, 69, 57);
    match &ops[0] {
        Operation::Get { key } => assert_eq!(key, "hot_17"),
        _ => panic!("draw 69 must plan a GET"),
    }
    // r1 % 100 == 70: the PUT branch, key scoped to worker and counter.
    let ops = plan_iteration_with(WorkloadType::GetPut, 1, 8, 70, 57);
    match &ops[0] {
        Operation::Put { key, value } => {
            assert_eq!(key, "key_gp_1_8");
            assert_eq!(value, "v8");
        },
        _ => panic!("draw 70 must plan a PUT"),
    }
    // r1 % 100 == 90: the DELETE branch, key from the worker's 100-key space.
    let ops = plan_iteration_with(WorkloadType::GetPut, 1, 8, 90, 257);
    match &ops[0] {
        Operation::Delete { key } => assert_eq!(key, "key_gp_1_57"),
        _ => panic!("draw 90 must plan a DELETE"),
    }
}

#[test]
fn stress_branch_thresholds() {
    let ops = plan_iteration_with(WorkloadType::Stress, 6, 11, 59, 307);
    match &ops[0] {
        Operation::Get { key } => assert_eq!(key, "stress_hot_7"),
        _ => panic!("draw 59 must plan a GET"),
    }
    let ops = plan_iteration_with(WorkloadType::Stress, 6, 11, 60, 307);
    match &ops[0] {
        Operation::Put { key, value } => {
            assert_eq!(key, "sk_6_11");
            assert_eq!(value, "v11");
        },
        _ => panic!("draw 60 must plan a PUT"),
    }
    let ops = plan_iteration_with(WorkloadType::Stress, 6, 11, 85, 2307);
    match &ops[0] {
        Operation::Delete { key } => assert_eq!(key, "sk_6_307"),
        _ => panic!("draw 85 must plan a DELETE"),
    }
}

#[test]
fn getput_long_run_split_converges() {
    // A fixed-seed generator keeps the test deterministic.
    let mut state: u64 = 0x2545F4914F6CDD1D;
    let mut draw = || {
        state = state.wrapping_mul(6364136223846793005).wrapping_add(1442695040888963407);
        (state >> 33) as u32
    };
    let iterations: u64 = 100_000;
    let (mut gets, mut puts, mut deletes) = (0u64, 0u64, 0u64);
    for counter in 0..iterations {
        let ops = plan_iteration_with(WorkloadType::GetPut, 0, counter, draw(), draw());
        match &ops[0] {
            Operation::Get { .. } => gets += 1,
            Operation::Put { .. } => puts += 1,
            Operation::Delete { .. } => deletes += 1,
        }
    }
    let total = iterations as f64;
    assert!((gets as f64 / total - 0.70).abs() < 0.02);
    assert!((puts as f64 / total - 0.20).abs() < 0.02);
    assert!((deletes as f64 / total - 0.10).abs() < 0.02);
}

#[test]
fn random_iterations_stay_inside_their_strategy() {
    // Whatever the library's own draws were, a GetPopular iteration reads
    // one pool key and a PutAll iteration writes then deletes one key.
    for counter in 0..50u64 {
        let ops = plan_iteration(WorkloadType::GetPopular, 1, counter);
        assert_eq!(ops.len(), 1);
        match &ops[0] {
            Operation::Get { key } => assert!(key.starts_with("popular_")),
            _ => panic!("a GetPopular iteration must be a GET"),
        }
        let ops = plan_iteration(WorkloadType::PutAll, 1, counter);
        assert_eq!(ops.len(), 2);
        assert_eq!(op_key(&ops[0]), op_key(&ops[1]));
    }
}
