//! Workload presets, the prefill and budget arithmetic, and the
//! end-to-end rapid-grow scenario's planned numbers.
use conc_map_bench::args::WorkloadType;
use conc_map_bench::contract::Op;
use conc_map_bench::bench::{average_latency_ns, plan_runs};
use conc_map_bench::table::{prefill, prepare_table, run_ops, ModelTable};
use conc_map_bench::workload::{pow2_u64, Mix, Workload};

#[test]
fn workload_names_parse_without_case() {
    assert_eq!(WorkloadType::from_str("readheavy"), Ok(WorkloadType::ReadHeavy));
    assert_eq!(WorkloadType::from_str("read_heavy"), Ok(WorkloadType::ReadHeavy));
    assert_eq!(WorkloadType::from_str("ReadHeavy"), Ok(WorkloadType::ReadHeavy));
    assert_eq!(WorkloadType::from_str("exchange"), Ok(WorkloadType::Exchange));
    assert_eq!(WorkloadType::from_str("Exchange"), Ok(WorkloadType::Exchange));
    assert_eq!(WorkloadType::from_str("rapidgrow"), Ok(WorkloadType::RapidGrow));
    assert_eq!(WorkloadType::from_str("RAPID_GROW"), Ok(WorkloadType::RapidGrow));
    assert_eq!(WorkloadType::from_str("uniform"), Err("unknown workload"));
    assert_eq!(WorkloadType::from_str(""), Err("unknown workload"));
}

#[test]
fn preset_mixes_and_parameters() {
    let w = WorkloadType::read_heavy(4);
    assert_eq!(
        (w.mix.read, w.mix.insert, w.mix.remove, w.mix.update, w.mix.upsert),
        (98, 1, 1, 0, 0)
    );
    assert_eq!(w.initial_cap_log2, 25);
    assert_eq!((w.prefill_num, w.prefill_den), (3, 4));
    assert_eq!(w.threads, 4);

    let w = WorkloadType::rapid_grow(2);
    assert_eq!(
        (w.mix.read, w.mix.insert, w.mix.remove, w.mix.update, w.mix.upsert),
        (5, 80, 5, 10, 0)
    );
    assert_eq!((w.prefill_num, w.prefill_den), (0, 1));

    let w = WorkloadType::exchange(1);
    assert_eq!(
        (w.mix.read, w.mix.insert, w.mix.remove, w.mix.update, w.mix.upsert),
        (10, 40, 40, 10, 0)
    );
    assert_eq!((w.prefill_num, w.prefill_den), (3, 4));
}

#[test]
fn prefill_count_is_floor_of_fraction_times_capacity() {
    let mut w = Workload::new(1, Mix { read: 100, insert: 0, remove: 0, update: 0, upsert: 0 });
    w.initial_capacity_log2(10);
    // f = 0 yields an empty table
    w.prefill_fraction(0, 1);
    assert_eq!(w.prefill_count(), 0);
    // f = 1 populates to capacity
    w.prefill_fraction(1, 1);
    assert_eq!(w.prefill_count(), 1024);
    // f = 3/4 of 2^10
    w.prefill_fraction(3, 4);
    assert_eq!(w.prefill_count(), 768);
    // an inexact fraction floors
    w.prefill_fraction(1, 3);
    assert_eq!(w.prefill_count(), 341);
    // the presets' own capacity
    w.initial_capacity_log2(25);
    w.prefill_fraction(3, 4);
    assert_eq!(w.prefill_count(), 25_165_824);
}

#[test]
fn total_ops_scales_capacity_by_the_multiplier() {
    let mut w = Workload::new(1, Mix { read: 100, insert: 0, remove: 0, update: 0, upsert: 0 });
    w.initial_capacity_log2(10);
    w.operations(1, 1);
    assert_eq!(w.total_ops(), 1024);
    w.operations(3, 4);
    assert_eq!(w.total_ops(), 768);
    // the multiplier may exceed one
    w.operations(3, 1);
    assert_eq!(w.total_ops(), 3072);
}

#[test]
fn pow2_values() {
    assert_eq!(pow2_u64(0), 1);
    assert_eq!(pow2_u64(10), 1024);
    assert_eq!(pow2_u64(25), 33_554_432);
    assert_eq!(pow2_u64(32), 4_294_967_296);
}

#[test]
fn prefill_populates_exactly_the_planned_keys() {
    let mut t = ModelTable::with_capacity(1024);
    let inserted = prefill(&mut t, 768);
    assert_eq!(inserted, 768);
    assert_eq!(t.len(), 768);
    assert!(t.get(0));
    assert!(t.get(767));
    assert!(!t.get(768));
}

#[test]
fn run_lifecycle_prefills_per_the_workload() {
    // exchange preset at a small capacity: 3/4 of 2^8 keys present
    let mut w = WorkloadType::exchange(1);
    w.initial_capacity_log2(8);
    let t = prepare_table(&w);
    assert_eq!(t.len(), 192);
    assert!(t.get(0));
    assert!(t.get(191));
    assert!(!t.get(192));
    // rapid-grow prefills nothing
    let mut w = WorkloadType::rapid_grow(1);
    w.initial_capacity_log2(8);
    let t = prepare_table(&w);
    assert_eq!(t.len(), 0);
}

#[test]
fn rapid_grow_scenario_plans_two_full_budget_measurements() {
    // workload = rapid_grow, operations = 1.0, capacity 2^10, prefill 0,
    // threads [1, 2]
    let wt = WorkloadType::from_str("rapid_grow").unwrap();
    let skips: Vec<String> = Vec::new();
    let plan = plan_runs("dashmap@5.5.3", &skips, &Some(vec![1, 2]), 8);
    assert_eq!(plan, vec![1, 2]);
    let mut measurements: Vec<(u32, u64)> = Vec::new();
    for threads in plan {
        let mut w = wt.create(threads, 1, 1);
        w.initial_capacity_log2(10);
        assert_eq!(w.prefill_count(), 0);
        let budget = w.total_ops();
        assert_eq!(budget, 1024);
        measurements.push((threads, budget));
    }
    assert_eq!(measurements.len(), 2);
    for (threads, total_ops) in measurements {
        assert_eq!(total_ops, 1024);
        // with any positive elapsed time the derived latency is positive
        assert!(average_latency_ns(1_000_000, threads, total_ops) > 0);
    }
}

#[test]
fn read_only_run_leaves_the_table_unchanged() {
    let mut t = ModelTable::with_capacity(16);
    let _ = prefill(&mut t, 8);
    assert!(t.update(3));
    assert_eq!(t.value(3), Some(1));
    // a run whose mix is all reads: {read: 100, others: 0}
    let ops = vec![Op::Read(0), Op::Read(3), Op::Read(7), Op::Read(12), Op::Read(3)];
    let executed = run_ops(&mut t, &ops);
    assert_eq!(executed, 5);
    // key set and all values are unchanged
    assert_eq!(t.len(), 8);
    for k in 0..8 {
        assert!(t.get(k));
    }
    assert!(!t.get(12));
    assert_eq!(t.value(3), Some(1));
    assert_eq!(t.value(0), Some(0));
}

#[test]
fn mixed_run_executes_its_whole_budget() {
    let mut t = ModelTable::with_capacity(16);
    let ops = vec![
        Op::Insert(1),
        Op::Insert(2),
        Op::Update(1),
        Op::Remove(2),
        Op::Read(1),
        Op::Update(9),
    ];
    let executed = run_ops(&mut t, &ops);
    assert_eq!(executed, 6);
    assert_eq!(t.value(1), Some(1));
    assert!(!t.get(2));
    assert!(!t.get(9));
    assert_eq!(t.len(), 1);
}
