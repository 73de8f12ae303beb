//! Sharded-locking adapter: binds `dashmap`'s `DashMap` (locking scoped
//! to the owning shard) to the capability contract.
use crate::contract::{after_insert, after_remove, after_update, bumped, empty_table,
    insert_result, op_get, remove_result, update_result};
use crate::table::bump_mut;
use std::collections::hash_map::RandomState;
use vstd::prelude::*;

verus! {

#[verifier::external_type_specification]
#[verifier::external_body]
#[verifier::reject_recursive_types(K)]
#[verifier::reject_recursive_types(V)]
#[verifier::reject_recursive_types(S)]
pub struct ExDashMap<K, V, S>(dashmap::DashMap<K, V, S>);

/// What the sharded map holds: its current key-to-counter bindings.
pub uninterp spec fn dashmap_contents(m: dashmap::DashMap<u64, u32, RandomState>) -> Map<u64, u32>;

/// A table bound to the sharded-locking strategy.
pub struct DashMapTable {
    m: dashmap::DashMap<u64, u32, RandomState>,
}

impl DashMapTable {
    /// The table's logical contents.
    pub closed spec fn view(&self) -> Map<u64, u32> {
        dashmap_contents(self.m)
    }

    /// Relies on dashmap::DashMap::with_capacity: a new map sized for
    /// `capacity` entries, holding no key.
    #[verifier::external_body]
    fn new_inner(capacity: usize) -> (m: dashmap::DashMap<u64, u32, RandomState>)
        ensures
            dashmap_contents(m) == empty_table(),
    {
        dashmap::DashMap::with_capacity(capacity)
    }

    /// Relies on dashmap::DashMap::get: returns a guarded reference iff
    /// the key is present; the map is unchanged.
    #[verifier::external_body]
    fn get_inner(&self, key: u64) -> (r: bool)
        ensures
            r == dashmap_contents(self.m).dom().contains(key),
    {
        self.m.get(&key).is_some()
    }

    /// Relies on dashmap::DashMap::insert: binds the key to the given
    /// value and returns the previously bound value, if any.
    #[verifier::external_body]
    fn insert_inner(&mut self, key: u64) -> (r: bool)
        ensures
            dashmap_contents(final(self).m) == dashmap_contents(old(self).m).insert(key, 0u32),
            r == !dashmap_contents(old(self).m).dom().contains(key),
    {
        self.m.insert(key, 0).is_none()
    }

    /// Relies on dashmap::DashMap::remove: unbinds the key and returns
    /// the removed entry, if one was present.
    #[verifier::external_body]
    fn remove_inner(&mut self, key: u64) -> (r: bool)
        ensures
            dashmap_contents(final(self).m) == dashmap_contents(old(self).m).remove(key),
            r == dashmap_contents(old(self).m).dom().contains(key),
    {
        self.m.remove(&key).is_some()
    }

    /// Relies on dashmap::DashMap::get_mut: yields an exclusive guarded
    /// reference to the key's value iff the key is present; the handed
    /// closure only calls the library's verified `bump_mut`.
    #[verifier::external_body]
    fn update_inner(&mut self, key: u64) -> (r: bool)
        ensures
            dashmap_contents(final(self).m) == (if dashmap_contents(old(self).m).dom().contains(
                key,
            ) {
                dashmap_contents(old(self).m).insert(
                    key,
                    bumped(dashmap_contents(old(self).m)[key]),
                )
            } else {
                dashmap_contents(old(self).m)
            }),
            r == dashmap_contents(old(self).m).dom().contains(key),
    {
        self.m.get_mut(&key).map(|mut v| bump_mut(v.value_mut())).is_some()
    }

    /// Allocates a table sized for at least `capacity` entries; it
    /// starts empty.
    pub fn with_capacity(capacity: usize) -> (t: Self)
        ensures
            t@ == empty_table(),
    {
        DashMapTable { m: Self::new_inner(capacity) }
    }

    /// Looks the key up without side effect; true iff it is present.
    pub fn get(&self, key: u64) -> (r: bool)
        ensures
            r == op_get(self@, key),
    {
        self.get_inner(key)
    }

    /// Inserts the key with a fresh zero value; true iff it was absent
    /// immediately before the call.
    pub fn insert(&mut self, key: u64) -> (r: bool)
        ensures
            final(self)@ == after_insert(old(self)@, key),
            r == insert_result(old(self)@, key),
    {
        self.insert_inner(key)
    }

    /// Removes the key; true iff it was present immediately before the
    /// call.
    pub fn remove(&mut self, key: u64) -> (r: bool)
        ensures
            final(self)@ == after_remove(old(self)@, key),
            r == remove_result(old(self)@, key),
    {
        self.remove_inner(key)
    }

    /// If the key is present, records exactly one increment on its value
    /// and returns true; an absent key is left uninserted and yields
    /// false.
    pub fn update(&mut self, key: u64) -> (r: bool)
        ensures
            final(self)@ == after_update(old(self)@, key),
            r == update_result(old(self)@, key),
    {
        self.update_inner(key)
    }

    /// The strategy's identifying base name.
    pub fn base_name() -> (r: &'static str)
        ensures
            r@ == "dashmap"@,
    {
        "dashmap"
    }

    /// Shard locking reclaims entries on removal; no external
    /// reclamation flushing is required between runs.
    pub fn needs_external_quiescence() -> (b: bool)
        ensures
            !b,
    {
        false
    }
}

} // verus!
