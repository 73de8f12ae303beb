//! Global-lock adapters: a sequential `std::collections::HashMap` made
//! shareable by a single reader-writer lock, once with the standard
//! library's lock and once with `parking_lot`'s. Reads share the lock;
//! every write serialises on it.
use crate::contract::{after_insert, after_remove, after_update, bumped, empty_table,
    insert_result, op_get, remove_result, update_result};
use crate::table::bump_mut;
use vstd::prelude::*;

verus! {

/// A table bound to the global-lock strategy over the standard library's
/// reader-writer lock. The struct is opaque to the verifier: it holds a
/// `std::sync::RwLock<HashMap<u64, u32>>`, a lock type `vstd` gives no
/// specification, so the container stands behind the
/// `std_locked_contents` name and the trusted methods below.
#[verifier::external_body]
pub struct StdRwLockStdHashMapTable {
    m: std::sync::RwLock<std::collections::HashMap<u64, u32>>,
}

/// What the std-locked map holds: its current key-to-counter bindings.
pub uninterp spec fn std_locked_contents(t: StdRwLockStdHashMapTable) -> Map<u64, u32>;

impl StdRwLockStdHashMapTable {
    /// The table's logical contents.
    pub closed spec fn view(&self) -> Map<u64, u32> {
        std_locked_contents(*self)
    }

    /// Relies on std::sync::RwLock::new and HashMap::with_capacity: a
    /// new locked map sized for `capacity` entries, holding no key.
    #[verifier::external_body]
    fn new_inner(capacity: usize) -> (t: Self)
        ensures
            std_locked_contents(t) == empty_table(),
    {
        StdRwLockStdHashMapTable {
            m: std::sync::RwLock::new(std::collections::HashMap::with_capacity(capacity)),
        }
    }

    /// Relies on std::sync::RwLock::read and HashMap::get: the key is
    /// looked up under the shared lock; the map is unchanged. The lock
    /// cannot be poisoned here, as the library's own code does not
    /// panic while holding it.
    #[verifier::external_body]
    fn get_inner(&self, key: u64) -> (r: bool)
        ensures
            r == std_locked_contents(*self).dom().contains(key),
    {
        self.m.read().unwrap().get(&key).is_some()
    }

    /// Relies on std::sync::RwLock::write and HashMap::insert: the key
    /// is bound to the given value under the exclusive lock, and the
    /// previously bound value is returned, if any.
    #[verifier::external_body]
    fn insert_inner(&mut self, key: u64) -> (r: bool)
        ensures
            std_locked_contents(*final(self)) == std_locked_contents(*old(self)).insert(
                key,
                0u32,
            ),
            r == !std_locked_contents(*old(self)).dom().contains(key),
    {
        self.m.write().unwrap().insert(key, 0).is_none()
    }

    /// Relies on std::sync::RwLock::write and HashMap::remove: the key
    /// is unbound under the exclusive lock, and the removed value is
    /// returned, if one was present.
    #[verifier::external_body]
    fn remove_inner(&mut self, key: u64) -> (r: bool)
        ensures
            std_locked_contents(*final(self)) == std_locked_contents(*old(self)).remove(key),
            r == std_locked_contents(*old(self)).dom().contains(key),
    {
        self.m.write().unwrap().remove(&key).is_some()
    }

    /// Relies on std::sync::RwLock::write and HashMap::get_mut: a
    /// present key's counter is incremented under the exclusive lock;
    /// the handed closure only calls the library's verified `bump_mut`.
    #[verifier::external_body]
    fn update_inner(&mut self, key: u64) -> (r: bool)
        ensures
            std_locked_contents(*final(self)) == (if std_locked_contents(
                *old(self),
            ).dom().contains(key) {
                std_locked_contents(*old(self)).insert(
                    key,
                    bumped(std_locked_contents(*old(self))[key]),
                )
            } else {
                std_locked_contents(*old(self))
            }),
            r == std_locked_contents(*old(self)).dom().contains(key),
    {
        self.m.write().unwrap().get_mut(&key).map(|v| bump_mut(v)).is_some()
    }

    /// Allocates a table sized for at least `capacity` entries; it
    /// starts empty.
    pub fn with_capacity(capacity: usize) -> (t: Self)
        ensures
            t@ == empty_table(),
    {
        Self::new_inner(capacity)
    }

    /// Looks the key up without side effect; true iff it is present.
    pub fn get(&self, key: u64) -> (r: bool)
        ensures
            r == op_get(self@, key),
    {
        self.get_inner(key)
    }

    /// Inserts the key with a fresh zero value; true iff it was absent
    /// immediately before the call.
    pub fn insert(&mut self, key: u64) -> (r: bool)
        ensures
            final(self)@ == after_insert(old(self)@, key),
            r == insert_result(old(self)@, key),
    {
        self.insert_inner(key)
    }

    /// Removes the key; true iff it was present immediately before the
    /// call.
    pub fn remove(&mut self, key: u64) -> (r: bool)
        ensures
            final(self)@ == after_remove(old(self)@, key),
            r == remove_result(old(self)@, key),
    {
        self.remove_inner(key)
    }

    /// If the key is present, records exactly one increment on its value
    /// and returns true; an absent key is left uninserted and yields
    /// false.
    pub fn update(&mut self, key: u64) -> (r: bool)
        ensures
            final(self)@ == after_update(old(self)@, key),
            r == update_result(old(self)@, key),
    {
        self.update_inner(key)
    }

    /// The strategy's identifying base name.
    pub fn base_name() -> (r: &'static str)
        ensures
            r@ == "std"@,
    {
        "std"
    }

    /// A lock-based table frees entries on removal; no external
    /// reclamation flushing is required between runs.
    pub fn needs_external_quiescence() -> (b: bool)
        ensures
            !b,
    {
        false
    }
}

/// A table bound to the global-lock strategy over `parking_lot`'s
/// reader-writer lock. The struct is opaque to the verifier: it holds a
/// `parking_lot::RwLock<HashMap<u64, u32>>`, whose type is an alias into
/// `lock_api` that the verifier does not take as a declaration, so the
/// container stands behind the `parking_lot_locked_contents` name and
/// the trusted methods below.
#[verifier::external_body]
pub struct ParkingLotRwLockStdHashMapTable {
    m: parking_lot::RwLock<std::collections::HashMap<u64, u32>>,
}

/// What the parking_lot-locked map holds: its current key-to-counter
/// bindings.
pub uninterp spec fn parking_lot_locked_contents(
    t: ParkingLotRwLockStdHashMapTable,
) -> Map<u64, u32>;

impl ParkingLotRwLockStdHashMapTable {
    /// The table's logical contents.
    pub closed spec fn view(&self) -> Map<u64, u32> {
        parking_lot_locked_contents(*self)
    }

    /// Relies on parking_lot::RwLock::new and HashMap::with_capacity: a
    /// new locked map sized for `capacity` entries, holding no key.
    #[verifier::external_body]
    fn new_inner(capacity: usize) -> (t: Self)
        ensures
            parking_lot_locked_contents(t) == empty_table(),
    {
        ParkingLotRwLockStdHashMapTable {
            m: parking_lot::RwLock::new(std::collections::HashMap::with_capacity(capacity)),
        }
    }

    /// Relies on parking_lot::RwLock::read and HashMap::get: the key is
    /// looked up under the shared lock; the map is unchanged.
    #[verifier::external_body]
    fn get_inner(&self, key: u64) -> (r: bool)
        ensures
            r == parking_lot_locked_contents(*self).dom().contains(key),
    {
        self.m.read().get(&key).is_some()
    }

    /// Relies on parking_lot::RwLock::write and HashMap::insert: the key
    /// is bound to the given value under the exclusive lock, and the
    /// previously bound value is returned, if any.
    #[verifier::external_body]
    fn insert_inner(&mut self, key: u64) -> (r: bool)
        ensures
            parking_lot_locked_contents(*final(self)) == parking_lot_locked_contents(
                *old(self),
            ).insert(key, 0u32),
            r == !parking_lot_locked_contents(*old(self)).dom().contains(key),
    {
        self.m.write().insert(key, 0).is_none()
    }

    /// Relies on parking_lot::RwLock::write and HashMap::remove: the key
    /// is unbound under the exclusive lock, and the removed value is
    /// returned, if one was present.
    #[verifier::external_body]
    fn remove_inner(&mut self, key: u64) -> (r: bool)
        ensures
            parking_lot_locked_contents(*final(self)) == parking_lot_locked_contents(
                *old(self),
            ).remove(key),
            r == parking_lot_locked_contents(*old(self)).dom().contains(key),
    {
        self.m.write().remove(&key).is_some()
    }

    /// Relies on parking_lot::RwLock::write and HashMap::get_mut: a
    /// present key's counter is incremented under the exclusive lock;
    /// the handed closure only calls the library's verified `bump_mut`.
    #[verifier::external_body]
    fn update_inner(&mut self, key: u64) -> (r: bool)
        ensures
            parking_lot_locked_contents(*final(self)) == (if parking_lot_locked_contents(
                *old(self),
            ).dom().contains(key) {
                parking_lot_locked_contents(*old(self)).insert(
                    key,
                    bumped(parking_lot_locked_contents(*old(self))[key]),
                )
            } else {
                parking_lot_locked_contents(*old(self))
            }),
            r == parking_lot_locked_contents(*old(self)).dom().contains(key),
    {
        self.m.write().get_mut(&key).map(|v| bump_mut(v)).is_some()
    }

    /// Allocates a table sized for at least `capacity` entries; it
    /// starts empty.
    pub fn with_capacity(capacity: usize) -> (t: Self)
        ensures
            t@ == empty_table(),
    {
        Self::new_inner(capacity)
    }

    /// Looks the key up without side effect; true iff it is present.
    pub fn get(&self, key: u64) -> (r: bool)
        ensures
            r == op_get(self@, key),
    {
        self.get_inner(key)
    }

    /// Inserts the key with a fresh zero value; true iff it was absent
    /// immediately before the call.
    pub fn insert(&mut self, key: u64) -> (r: bool)
        ensures
            final(self)@ == after_insert(old(self)@, key),
            r == insert_result(old(self)@, key),
    {
        self.insert_inner(key)
    }

    /// Removes the key; true iff it was present immediately before the
    /// call.
    pub fn remove(&mut self, key: u64) -> (r: bool)
        ensures
            final(self)@ == after_remove(old(self)@, key),
            r == remove_result(old(self)@, key),
    {
        self.remove_inner(key)
    }

    /// If the key is present, records exactly one increment on its value
    /// and returns true; an absent key is left uninserted and yields
    /// false.
    pub fn update(&mut self, key: u64) -> (r: bool)
        ensures
            final(self)@ == after_update(old(self)@, key),
            r == update_result(old(self)@, key),
    {
        self.update_inner(key)
    }

    /// The strategy's identifying base name.
    pub fn base_name() -> (r: &'static str)
        ensures
            r@ == "std(parking_lot)"@,
    {
        "std(parking_lot)"
    }

    /// A lock-based table frees entries on removal; no external
    /// reclamation flushing is required between runs.
    pub fn needs_external_quiescence() -> (b: bool)
        ensures
            !b,
    {
        false
    }
}

} // verus!
