//! Ordered lock-free adapter: binds `crossbeam_skiplist`'s `SkipMap` (an
//! ordered map with logarithmic-cost operations and epoch-based
//! reclamation) to the capability contract. Counter values sit behind a
//! per-entry mutex, since the skiplist hands out shared references to
//! its values.
use crate::contract::{after_insert, after_remove, after_update, bumped, empty_table,
    insert_result, op_get, remove_result, update_result};
use crate::table::bump_mut;
use vstd::prelude::*;

verus! {

/// A table bound to the ordered lock-free strategy. The struct is opaque
/// to the verifier: it holds a `crossbeam_skiplist::SkipMap` from `u64`
/// keys to `parking_lot::Mutex<u32>` counters, a value type whose
/// declaration the verifier does not take (`parking_lot`'s lock types
/// are aliases into `lock_api`), so the whole container stands behind
/// the `skipmap_contents` name and the trusted methods below.
#[verifier::external_body]
pub struct CrossbeamSkipMapTable {
    m: crossbeam_skiplist::SkipMap<u64, parking_lot::Mutex<u32>>,
}

/// What the ordered map holds: its current key-to-counter bindings, each
/// counter read through its entry's mutex.
pub uninterp spec fn skipmap_contents(t: CrossbeamSkipMapTable) -> Map<u64, u32>;

impl CrossbeamSkipMapTable {
    /// The table's logical contents.
    pub closed spec fn view(&self) -> Map<u64, u32> {
        skipmap_contents(*self)
    }

    /// Relies on crossbeam_skiplist::SkipMap::new: a new map holding no
    /// key. The skiplist takes no capacity hint; the requested capacity
    /// only sizes the run's key space.
    #[verifier::external_body]
    fn new_inner(capacity: usize) -> (t: Self)
        ensures
            skipmap_contents(t) == empty_table(),
    {
        let _ = capacity;
        CrossbeamSkipMapTable { m: crossbeam_skiplist::SkipMap::new() }
    }

    /// Relies on crossbeam_skiplist::SkipMap::get: returns the key's
    /// entry iff the key is present; the map is unchanged.
    #[verifier::external_body]
    fn get_inner(&self, key: u64) -> (r: bool)
        ensures
            r == skipmap_contents(*self).dom().contains(key),
    {
        self.m.get(&key).is_some()
    }

    /// Relies on crossbeam_skiplist::SkipMap::get and
    /// crossbeam_skiplist::SkipMap::insert: the prior presence is read
    /// first, then the key is bound to a fresh zero counter, removing
    /// any existing entry for it.
    #[verifier::external_body]
    fn insert_inner(&mut self, key: u64) -> (r: bool)
        ensures
            skipmap_contents(*final(self)) == skipmap_contents(*old(self)).insert(key, 0u32),
            r == !skipmap_contents(*old(self)).dom().contains(key),
    {
        let absent = self.m.get(&key).is_none();
        self.m.insert(key, parking_lot::Mutex::new(0));
        absent
    }

    /// Relies on crossbeam_skiplist::SkipMap::remove: unbinds the key
    /// and returns the removed entry, if one was present.
    #[verifier::external_body]
    fn remove_inner(&mut self, key: u64) -> (r: bool)
        ensures
            skipmap_contents(*final(self)) == skipmap_contents(*old(self)).remove(key),
            r == skipmap_contents(*old(self)).dom().contains(key),
    {
        self.m.remove(&key).is_some()
    }

    /// Relies on crossbeam_skiplist::SkipMap::get and
    /// parking_lot::Mutex::lock: a present key's counter is incremented
    /// under its entry's mutex; the handed closure only calls the
    /// library's verified `bump_mut`.
    #[verifier::external_body]
    fn update_inner(&mut self, key: u64) -> (r: bool)
        ensures
            skipmap_contents(*final(self)) == (if skipmap_contents(*old(self)).dom().contains(
                key,
            ) {
                skipmap_contents(*old(self)).insert(
                    key,
                    bumped(skipmap_contents(*old(self))[key]),
                )
            } else {
                skipmap_contents(*old(self))
            }),
            r == skipmap_contents(*old(self)).dom().contains(key),
    {
        self.m.get(&key).map(|e| bump_mut(&mut e.value().lock())).is_some()
    }

    /// Allocates a table; the skiplist starts empty whatever capacity is
    /// requested.
    pub fn with_capacity(capacity: usize) -> (t: Self)
        ensures
            t@ == empty_table(),
    {
        Self::new_inner(capacity)
    }

    /// Looks the key up without side effect; true iff it is present.
    pub fn get(&self, key: u64) -> (r: bool)
        ensures
            r == op_get(self@, key),
    {
        self.get_inner(key)
    }

    /// Inserts the key with a fresh zero value; true iff it was absent
    /// immediately before the call.
    pub fn insert(&mut self, key: u64) -> (r: bool)
        ensures
            final(self)@ == after_insert(old(self)@, key),
            r == insert_result(old(self)@, key),
    {
        self.insert_inner(key)
    }

    /// Removes the key; true iff it was present immediately before the
    /// call.
    pub fn remove(&mut self, key: u64) -> (r: bool)
        ensures
            final(self)@ == after_remove(old(self)@, key),
            r == remove_result(old(self)@, key),
    {
        self.remove_inner(key)
    }

    /// If the key is present, records exactly one increment on its value
    /// and returns true; an absent key is left uninserted and yields
    /// false.
    pub fn update(&mut self, key: u64) -> (r: bool)
        ensures
            final(self)@ == after_update(old(self)@, key),
            r == update_result(old(self)@, key),
    {
        self.update_inner(key)
    }

    /// The strategy's identifying base name.
    pub fn base_name() -> (r: &'static str)
        ensures
            r@ == "crossbeam_skiplist"@,
    {
        "crossbeam_skiplist"
    }

    /// The skiplist defers frees through epoch-based reclamation, so the
    /// orchestrator must force reclamation flushes between runs.
    pub fn needs_external_quiescence() -> (b: bool)
        ensures
            b,
    {
        true
    }
}

} // verus!
