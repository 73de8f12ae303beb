//! Lock-free hashing adapter with deferred reclamation: binds `flurry`'s
//! `HashMap` to the capability contract. Stale entries are reclaimed in
//! deferred batches, so this strategy declares that it requires external
//! quiescence between runs.
use crate::contract::{after_insert, after_remove, after_update, bumped, empty_table,
    insert_result, op_get, remove_result, update_result};
use crate::table::bump;
use seize::Collector;
use std::collections::hash_map::RandomState;
use vstd::prelude::*;

verus! {

#[verifier::external_type_specification]
#[verifier::external_body]
#[verifier::reject_recursive_types(K)]
#[verifier::reject_recursive_types(V)]
#[verifier::reject_recursive_types(S)]
pub struct ExFlurryMap<K, V, S>(flurry::HashMap<K, V, S>);

/// What the lock-free map holds: its current key-to-counter bindings.
pub uninterp spec fn flurry_contents(m: flurry::HashMap<u64, u32, RandomState>) -> Map<u64, u32>;

/// Reclamation batch size configured for the strategy's collector.
pub const FLURRY_BATCH_SIZE: usize = 2000;

/// A table bound to the lock-free hashing strategy.
pub struct FlurryTable {
    m: flurry::HashMap<u64, u32, RandomState>,
}

impl FlurryTable {
    /// The table's logical contents.
    pub closed spec fn view(&self) -> Map<u64, u32> {
        flurry_contents(self.m)
    }

    /// Relies on flurry::HashMap::with_capacity_and_hasher: a new map
    /// sized for `capacity` entries, holding no key; its collector is
    /// configured (seize::Collector) to reclaim in deferred batches with
    /// no epoch-frequency trigger.
    #[verifier::external_body]
    fn new_inner(capacity: usize) -> (m: flurry::HashMap<u64, u32, RandomState>)
        ensures
            flurry_contents(m) == empty_table(),
    {
        flurry::HashMap::with_capacity_and_hasher(capacity, RandomState::default()).with_collector(
            Collector::new().epoch_frequency(None).batch_size(FLURRY_BATCH_SIZE),
        )
    }

    /// Relies on flurry::HashMapRef::get (through `pin`): returns the
    /// key's value iff the key is present; the map is unchanged.
    #[verifier::external_body]
    fn get_inner(&self, key: u64) -> (r: bool)
        ensures
            r == flurry_contents(self.m).dom().contains(key),
    {
        self.m.pin().get(&key).is_some()
    }

    /// Relies on flurry::HashMapRef::insert (through `pin`): binds the
    /// key to the given value and returns the previously bound value, if
    /// any.
    #[verifier::external_body]
    fn insert_inner(&mut self, key: u64) -> (r: bool)
        ensures
            flurry_contents(final(self).m) == flurry_contents(old(self).m).insert(key, 0u32),
            r == !flurry_contents(old(self).m).dom().contains(key),
    {
        self.m.pin().insert(key, 0).is_none()
    }

    /// Relies on flurry::HashMapRef::remove (through `pin`): unbinds the
    /// key and returns the removed value, if one was present.
    #[verifier::external_body]
    fn remove_inner(&mut self, key: u64) -> (r: bool)
        ensures
            flurry_contents(final(self).m) == flurry_contents(old(self).m).remove(key),
            r == flurry_contents(old(self).m).dom().contains(key),
    {
        self.m.pin().remove(&key).is_some()
    }

    /// Relies on flurry::HashMapRef::compute_if_present (through `pin`):
    /// rebinds a present key to what the handed closure returns and
    /// yields the new value; an absent key is left uninserted. The
    /// closure only calls the library's verified `bump`.
    #[verifier::external_body]
    fn update_inner(&mut self, key: u64) -> (r: bool)
        ensures
            flurry_contents(final(self).m) == (if flurry_contents(old(self).m).dom().contains(
                key,
            ) {
                flurry_contents(old(self).m).insert(key, bumped(flurry_contents(old(self).m)[key]))
            } else {
                flurry_contents(old(self).m)
            }),
            r == flurry_contents(old(self).m).dom().contains(key),
    {
        self.m.pin().compute_if_present(&key, |_, v| Some(bump(*v))).is_some()
    }

    /// Allocates a table sized for at least `capacity` entries; it
    /// starts empty.
    pub fn with_capacity(capacity: usize) -> (t: Self)
        ensures
            t@ == empty_table(),
    {
        FlurryTable { m: Self::new_inner(capacity) }
    }

    /// Looks the key up without side effect; true iff it is present.
    pub fn get(&self, key: u64) -> (r: bool)
        ensures
            r == op_get(self@, key),
    {
        self.get_inner(key)
    }

    /// Inserts the key with a fresh zero value; true iff it was absent
    /// immediately before the call.
    pub fn insert(&mut self, key: u64) -> (r: bool)
        ensures
            final(self)@ == after_insert(old(self)@, key),
            r == insert_result(old(self)@, key),
    {
        self.insert_inner(key)
    }

    /// Removes the key; true iff it was present immediately before the
    /// call.
    pub fn remove(&mut self, key: u64) -> (r: bool)
        ensures
            final(self)@ == after_remove(old(self)@, key),
            r == remove_result(old(self)@, key),
    {
        self.remove_inner(key)
    }

    /// If the key is present, records exactly one increment on its value
    /// and returns true; an absent key is left uninserted and yields
    /// false.
    pub fn update(&mut self, key: u64) -> (r: bool)
        ensures
            final(self)@ == after_update(old(self)@, key),
            r == update_result(old(self)@, key),
    {
        self.update_inner(key)
    }

    /// The strategy's identifying base name.
    pub fn base_name() -> (r: &'static str)
        ensures
            r@ == "flurry"@,
    {
        "flurry"
    }

    /// Deferred frees accumulate between runs unless the orchestrator
    /// forces reclamation flushes, so this strategy declares the
    /// requirement.
    pub fn needs_external_quiescence() -> (b: bool)
        ensures
            b,
    {
        true
    }
}

} // verus!
