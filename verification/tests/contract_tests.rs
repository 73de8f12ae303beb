//! The capability contract exercised against every adapter binding and
//! the reference table: fresh inserts, repeated inserts, removals,
//! lookups and updates report prior presence exactly.
use conc_map_bench::adapters::crossbeam_skiplist::CrossbeamSkipMapTable;
use conc_map_bench::adapters::dashmap::DashMapTable;
use conc_map_bench::adapters::evmap::EvmapTable;
use conc_map_bench::adapters::flurry::FlurryTable;
use conc_map_bench::adapters::rwlock::{ParkingLotRwLockStdHashMapTable, StdRwLockStdHashMapTable};
use conc_map_bench::table::ModelTable;

#[test]
fn model_table_contract() {
    let mut t = ModelTable::with_capacity(16);
    assert!(!t.get(7));
    assert!(t.insert(7));
    assert!(t.get(7));
    assert!(!t.insert(7));
    assert!(t.remove(7));
    assert!(!t.get(7));
    assert!(!t.remove(7));
    assert!(!t.update(7));
    assert!(!t.get(7));
    assert!(t.insert(7));
    assert!(t.update(7));
    assert!(t.get(7));
    assert!(t.insert(8));
    assert!(t.get(7) && t.get(8));
    assert!(t.remove(8));
    assert!(t.get(7) && !t.get(8));
}

#[test]
fn dashmap_table_contract() {
    let mut t = DashMapTable::with_capacity(16);
    assert!(!t.get(7));
    assert!(t.insert(7));
    assert!(t.get(7));
    assert!(!t.insert(7));
    assert!(t.remove(7));
    assert!(!t.get(7));
    assert!(!t.remove(7));
    assert!(!t.update(7));
    assert!(!t.get(7));
    assert!(t.insert(7));
    assert!(t.update(7));
    assert!(t.get(7));
    assert!(t.insert(8));
    assert!(t.get(7) && t.get(8));
    assert!(t.remove(8));
    assert!(t.get(7) && !t.get(8));
}

#[test]
fn flurry_table_contract() {
    let mut t = FlurryTable::with_capacity(16);
    assert!(!t.get(7));
    assert!(t.insert(7));
    assert!(t.get(7));
    assert!(!t.insert(7));
    assert!(t.remove(7));
    assert!(!t.get(7));
    assert!(!t.remove(7));
    assert!(!t.update(7));
    assert!(!t.get(7));
    assert!(t.insert(7));
    assert!(t.update(7));
    assert!(t.get(7));
    assert!(t.insert(8));
    assert!(t.get(7) && t.get(8));
    assert!(t.remove(8));
    assert!(t.get(7) && !t.get(8));
}

#[test]
fn evmap_table_contract() {
    let mut t = EvmapTable::with_capacity(16);
    assert!(!t.get(7));
    assert!(t.insert(7));
    assert!(t.get(7));
    assert!(!t.insert(7));
    assert!(t.remove(7));
    assert!(!t.get(7));
    assert!(!t.remove(7));
    assert!(!t.update(7));
    assert!(!t.get(7));
    assert!(t.insert(7));
    assert!(t.update(7));
    assert!(t.get(7));
    assert!(t.insert(8));
    assert!(t.get(7) && t.get(8));
    assert!(t.remove(8));
    assert!(t.get(7) && !t.get(8));
}

#[test]
fn crossbeam_skipmap_table_contract() {
    let mut t = CrossbeamSkipMapTable::with_capacity(16);
    assert!(!t.get(7));
    assert!(t.insert(7));
    assert!(t.get(7));
    assert!(!t.insert(7));
    assert!(t.remove(7));
    assert!(!t.get(7));
    assert!(!t.remove(7));
    assert!(!t.update(7));
    assert!(!t.get(7));
    assert!(t.insert(7));
    assert!(t.update(7));
    assert!(t.get(7));
    assert!(t.insert(8));
    assert!(t.get(7) && t.get(8));
    assert!(t.remove(8));
    assert!(t.get(7) && !t.get(8));
}

#[test]
fn std_rwlock_table_contract() {
    let mut t = StdRwLockStdHashMapTable::with_capacity(16);
    assert!(!t.get(7));
    assert!(t.insert(7));
    assert!(t.get(7));
    assert!(!t.insert(7));
    assert!(t.remove(7));
    assert!(!t.get(7));
    assert!(!t.remove(7));
    assert!(!t.update(7));
    assert!(!t.get(7));
    assert!(t.insert(7));
    assert!(t.update(7));
    assert!(t.get(7));
    assert!(t.insert(8));
    assert!(t.get(7) && t.get(8));
    assert!(t.remove(8));
    assert!(t.get(7) && !t.get(8));
}

#[test]
fn parking_lot_rwlock_table_contract() {
    let mut t = ParkingLotRwLockStdHashMapTable::with_capacity(16);
    assert!(!t.get(7));
    assert!(t.insert(7));
    assert!(t.get(7));
    assert!(!t.insert(7));
    assert!(t.remove(7));
    assert!(!t.get(7));
    assert!(!t.remove(7));
    assert!(!t.update(7));
    assert!(!t.get(7));
    assert!(t.insert(7));
    assert!(t.update(7));
    assert!(t.get(7));
    assert!(t.insert(8));
    assert!(t.get(7) && t.get(8));
    assert!(t.remove(8));
    assert!(t.get(7) && !t.get(8));
}

#[test]
fn update_records_exactly_one_increment_each() {
    let mut t = ModelTable::with_capacity(4);
    assert!(t.insert(3));
    assert_eq!(t.value(3), Some(0));
    assert!(t.update(3));
    assert_eq!(t.value(3), Some(1));
    assert!(t.update(3));
    assert!(t.update(3));
    assert_eq!(t.value(3), Some(3));
    // an absent key records nothing
    assert!(!t.update(4));
    assert_eq!(t.value(4), None);
    assert_eq!(t.value(3), Some(3));
}

#[test]
fn insert_binds_a_fresh_zero_value() {
    let mut t = ModelTable::with_capacity(4);
    assert!(t.insert(1));
    assert!(t.update(1));
    assert_eq!(t.value(1), Some(1));
    // the reference strategy's natural insert semantics overwrite: the
    // counter is fresh again, and the return value still reports prior
    // presence
    assert!(!t.insert(1));
    assert_eq!(t.value(1), Some(0));
}

#[test]
fn adapter_names_and_quiescence_flags() {
    assert_eq!(DashMapTable::base_name(), "dashmap");
    assert_eq!(EvmapTable::base_name(), "evmap");
    assert_eq!(FlurryTable::base_name(), "flurry");
    assert_eq!(CrossbeamSkipMapTable::base_name(), "crossbeam_skiplist");
    assert_eq!(StdRwLockStdHashMapTable::base_name(), "std");
    assert_eq!(ParkingLotRwLockStdHashMapTable::base_name(), "std(parking_lot)");
    assert!(!DashMapTable::needs_external_quiescence());
    assert!(!EvmapTable::needs_external_quiescence());
    assert!(FlurryTable::needs_external_quiescence());
    assert!(CrossbeamSkipMapTable::needs_external_quiescence());
    assert!(!StdRwLockStdHashMapTable::needs_external_quiescence());
    assert!(!ParkingLotRwLockStdHashMapTable::needs_external_quiescence());
}
