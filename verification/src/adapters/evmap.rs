//! Copy-on-write adapter: binds `evmap`'s dual-handle map to the
//! capability contract. The writer mutates a private copy and publishes
//! it explicitly after every write, so the paired reader observes each
//! change before the operation returns.
//!
//! `evmap` keys a *bag* of values: its natural insert appends to the
//! bag of a present key rather than overwriting, so on a present key
//! `insert` here pins the domain but leaves open which bag element the
//! reader surfaces; the return value communicates prior presence
//! regardless, as the contract asks.
use crate::contract::{after_insert, after_remove, after_update, bumped, empty_table,
    insert_result, op_get, remove_result, update_result};
use crate::table::bump;
use vstd::prelude::*;

verus! {

/// A table bound to the copy-on-write strategy. The struct is opaque to
/// the verifier: it holds the paired `evmap` write and read handles,
/// whose types carry bounds the verifier does not take as a
/// declaration, so the container stands behind the `evmap_contents`
/// name and the trusted methods below.
#[verifier::external_body]
pub struct EvmapTable {
    w: evmap::handles::WriteHandle<u64, u32>,
    r: evmap::handles::ReadHandle<u64, u32>,
}

/// What the copy-on-write map shows its readers: for each present key,
/// the value its reader surfaces from the key's bag.
pub uninterp spec fn evmap_contents(t: EvmapTable) -> Map<u64, u32>;

impl EvmapTable {
    /// The table's logical contents, as published to readers.
    pub closed spec fn view(&self) -> Map<u64, u32> {
        evmap_contents(*self)
    }

    /// Relies on evmap::Options::construct and
    /// evmap::WriteHandle::publish: a freshly constructed and published
    /// map holds no key. The requested capacity sizes the map's
    /// allocation.
    #[verifier::external_body]
    fn new_inner(capacity: usize) -> (t: Self)
        ensures
            evmap_contents(t) == empty_table(),
    {
        let (mut w, r) = evmap::Options::default().with_capacity(capacity).construct();
        w.publish();
        EvmapTable { w, r }
    }

    /// Relies on evmap::ReadHandle::get_one: returns a guarded value iff
    /// the key has a published, non-empty bag; the map is unchanged.
    #[verifier::external_body]
    fn get_inner(&self, key: u64) -> (r: bool)
        ensures
            r == evmap_contents(*self).dom().contains(key),
    {
        self.r.get_one(&key).is_some()
    }

    /// Relies on evmap::WriteHandle::insert and publish: the prior
    /// presence is read first, then a zero value is added to the key's
    /// bag and published. A fresh key surfaces the zero; on a present
    /// key the bag grows, and which element the reader surfaces is the
    /// bag's affair — either the old value stays visible or the added
    /// zero becomes visible.
    #[verifier::external_body]
    fn insert_inner(&mut self, key: u64) -> (r: bool)
        ensures
            r == !evmap_contents(*old(self)).dom().contains(key),
            !evmap_contents(*old(self)).dom().contains(key) ==> evmap_contents(*final(self))
                == evmap_contents(*old(self)).insert(key, 0u32),
            evmap_contents(*old(self)).dom().contains(key) ==> (evmap_contents(*final(self))
                == evmap_contents(*old(self)) || evmap_contents(*final(self)) == evmap_contents(
                *old(self),
            ).insert(key, 0u32)),
    {
        let absent = self.r.get_one(&key).is_none();
        self.w.insert(key, 0).publish();
        absent
    }

    /// Relies on evmap::WriteHandle::remove_entry and publish: the prior
    /// presence is read first, then the key's bag is removed and the
    /// removal published.
    #[verifier::external_body]
    fn remove_inner(&mut self, key: u64) -> (r: bool)
        ensures
            evmap_contents(*final(self)) == evmap_contents(*old(self)).remove(key),
            r == evmap_contents(*old(self)).dom().contains(key),
    {
        let present = self.r.get_one(&key).is_some();
        self.w.remove_entry(key).publish();
        present
    }

    /// Relies on evmap::ReadHandle::get_one, evmap::WriteHandle::update
    /// and publish: a present key's surfaced value is read, incremented
    /// by the library's verified `bump`, and written back as the key's
    /// whole bag; an absent key is left untouched.
    #[verifier::external_body]
    fn update_inner(&mut self, key: u64) -> (r: bool)
        ensures
            evmap_contents(*final(self)) == (if evmap_contents(*old(self)).dom().contains(key) {
                evmap_contents(*old(self)).insert(key, bumped(evmap_contents(*old(self))[key]))
            } else {
                evmap_contents(*old(self))
            }),
            r == evmap_contents(*old(self)).dom().contains(key),
    {
        let next = match self.r.get_one(&key) {
            Some(guard) => Some(bump(*guard)),
            None => None,
        };
        match next {
            Some(value) => {
                self.w.update(key, value).publish();
                true
            },
            None => false,
        }
    }

    /// Allocates a table sized for at least `capacity` entries; it
    /// starts empty.
    pub fn with_capacity(capacity: usize) -> (t: Self)
        ensures
            t@ == empty_table(),
    {
        Self::new_inner(capacity)
    }

    /// Looks the key up without side effect; true iff it is present.
    pub fn get(&self, key: u64) -> (r: bool)
        ensures
            r == op_get(self@, key),
    {
        self.get_inner(key)
    }

    /// Inserts the key with a fresh zero value; true iff it was absent
    /// immediately before the call. On a present key the strategy's
    /// natural insert appends to the key's bag instead of overwriting,
    /// so the surfaced value is either the old one or the fresh zero.
    pub fn insert(&mut self, key: u64) -> (r: bool)
        ensures
            r == insert_result(old(self)@, key),
            insert_result(old(self)@, key) ==> final(self)@ == after_insert(old(self)@, key),
            !insert_result(old(self)@, key) ==> (final(self)@ == old(self)@ || final(self)@
                == after_insert(old(self)@, key)),
    {
        self.insert_inner(key)
    }

    /// Removes the key; true iff it was present immediately before the
    /// call.
    pub fn remove(&mut self, key: u64) -> (r: bool)
        ensures
            final(self)@ == after_remove(old(self)@, key),
            r == remove_result(old(self)@, key),
    {
        self.remove_inner(key)
    }

    /// If the key is present, records exactly one increment on its
    /// surfaced value and returns true; an absent key is left uninserted
    /// and yields false.
    pub fn update(&mut self, key: u64) -> (r: bool)
        ensures
            final(self)@ == after_update(old(self)@, key),
            r == update_result(old(self)@, key),
    {
        self.update_inner(key)
    }

    /// The strategy's identifying base name.
    pub fn base_name() -> (r: &'static str)
        ensures
            r@ == "evmap"@,
    {
        "evmap"
    }

    /// Old snapshots are reclaimed once readers advance past them; no
    /// external reclamation flushing is required between runs.
    pub fn needs_external_quiescence() -> (b: bool)
        ensures
            !b,
    {
        false
    }
}

} // verus!
