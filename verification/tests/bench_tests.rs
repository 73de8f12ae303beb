//! Orchestrator decisions: the thread-count schedule, the skip filter,
//! the run plan and the latency formula.
use conc_map_bench::bench::{average_latency_ns, is_skipped, plan_runs, plan_runs_auto,
    thread_schedule};

#[test]
fn schedule_small_machine_counts_every_thread() {
    assert_eq!(thread_schedule(8), vec![1, 2, 3, 4, 5, 6, 7, 8]);
}

#[test]
fn schedule_mid_machine_steps_by_two() {
    assert_eq!(thread_schedule(12), vec![1, 2, 4, 6, 8, 10, 12]);
}

#[test]
fn schedule_large_machine_steps_by_four() {
    assert_eq!(thread_schedule(32), vec![1, 4, 8, 12, 16, 20, 24, 28, 32]);
}

#[test]
fn schedule_boundary_behaviour() {
    assert_eq!(thread_schedule(1), vec![1]);
    assert_eq!(thread_schedule(10), vec![1, 2, 3, 4, 5, 6, 7, 8, 9, 10]);
    assert_eq!(thread_schedule(11), vec![1, 2, 4, 6, 8, 10]);
    assert_eq!(thread_schedule(16), vec![1, 2, 4, 6, 8, 10, 12, 14, 16]);
    assert_eq!(thread_schedule(17), vec![1, 4, 8, 12, 16]);
}

#[test]
fn skip_filter_matches_by_prefix() {
    let skips = vec![
        String::from("crossbeam_skiplist"),
        String::from("chashmap"),
        String::from("evmap"),
    ];
    assert!(is_skipped("crossbeam_skiplist@0.1.3", &skips));
    assert!(is_skipped("evmap", &skips));
    assert!(!is_skipped("dashmap@5.5.3", &skips));
    assert!(!is_skipped("std(parking_lot)", &skips));
    assert!(!is_skipped("cross", &skips));
    assert!(!is_skipped("flurry", &Vec::new()));
}

#[test]
fn empty_skip_string_excludes_every_adapter() {
    let skips = vec![String::new()];
    assert!(is_skipped("dashmap", &skips));
    assert!(is_skipped("", &skips));
    assert!(plan_runs("std", &skips, &Some(vec![1]), 8).is_empty());
}

#[test]
fn skipped_adapter_gets_no_measurements_others_unaffected() {
    let skips = vec![String::from("dashmap")];
    let explicit = Some(vec![1, 2, 4]);
    let skipped = plan_runs("dashmap@5.5.3", &skips, &explicit, 8);
    assert!(skipped.is_empty());
    let kept = plan_runs("flurry@0.5.2", &skips, &explicit, 8);
    assert_eq!(kept, vec![1, 2, 4]);
}

#[test]
fn plan_without_explicit_threads_uses_schedule() {
    let skips: Vec<String> = Vec::new();
    let plan = plan_runs("std", &skips, &None, 12);
    assert_eq!(plan, vec![1, 2, 4, 6, 8, 10, 12]);
}

#[test]
fn plan_auto_respects_explicit_threads() {
    let skips: Vec<String> = Vec::new();
    let plan = plan_runs_auto("std", &skips, &Some(vec![1, 2]));
    assert_eq!(plan, vec![1, 2]);
    let auto = plan_runs_auto("std", &skips, &None);
    assert!(!auto.is_empty());
    assert_eq!(auto[0], 1);
}

#[test]
fn latency_is_summed_thread_time_per_operation() {
    assert_eq!(average_latency_ns(1_000_000, 1, 1024), 976);
    assert_eq!(average_latency_ns(1_000_000, 2, 1024), 1953);
    assert!(average_latency_ns(1_000_000, 1, 1024) > 0);
}
