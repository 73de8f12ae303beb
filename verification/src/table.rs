//! A verified reference table: a sequential implementation of the
//! capability contract over `std::collections::HashMap`, proved to follow
//! the contract's transition functions exactly.
//!
//! The reference table is the contract's model: adapter bindings over
//! outside concurrent maps promise the same observable behaviour, and the
//! prefill and measured phases are exercised against it.
use crate::contract::{
    after_insert, after_remove, after_update, apply_op, apply_ops, bumped, empty_table,
    insert_result, op_get, remove_result, update_result, Op,
};
use std::collections::HashMap;
use vstd::prelude::*;

verus! {

broadcast use vstd::std_specs::hash::group_hash_axioms;

/// A table owned by one benchmark run, bound to the sequential reference
/// strategy.
pub struct ModelTable {
    m: HashMap<u64, u32>,
}

impl ModelTable {
    /// The table's logical contents: a map from keys to counter values.
    pub closed spec fn view(&self) -> Map<u64, u32> {
        self.m@
    }

    /// Allocates a table sized for at least `capacity` entries; it starts
    /// empty.
    pub fn with_capacity(capacity: usize) -> (t: Self)
        ensures
            t@ == empty_table(),
    {
        ModelTable { m: HashMap::with_capacity(capacity) }
    }

    /// Looks the key up without side effect; true iff it is present.
    pub fn get(&self, key: u64) -> (r: bool)
        ensures
            r == op_get(self@, key),
    {
        self.m.contains_key(&key)
    }

    /// Inserts the key with a fresh zero value; true iff it was absent
    /// immediately before the call.
    pub fn insert(&mut self, key: u64) -> (r: bool)
        ensures
            final(self)@ == after_insert(old(self)@, key),
            r == insert_result(old(self)@, key),
    {
        self.m.insert(key, 0).is_none()
    }

    /// Removes the key; true iff it was present immediately before the
    /// call.
    pub fn remove(&mut self, key: u64) -> (r: bool)
        ensures
            final(self)@ == after_remove(old(self)@, key),
            r == remove_result(old(self)@, key),
    {
        self.m.remove(&key).is_some()
    }

    /// If the key is present, records exactly one increment on its value
    /// and returns true; an absent key is left uninserted and yields
    /// false.
    pub fn update(&mut self, key: u64) -> (r: bool)
        ensures
            final(self)@ == after_update(old(self)@, key),
            r == update_result(old(self)@, key),
    {
        match self.m.get(&key) {
            Some(v) => {
                let bumped_v = bump(*v);
                self.m.insert(key, bumped_v);
                true
            },
            None => false,
        }
    }

    /// The counter currently recorded for the key, if it is present;
    /// the counter exists to witness `update`'s increments.
    pub fn value(&self, key: u64) -> (r: Option<u32>)
        ensures
            match r {
                Some(v) => self@.dom().contains(key) && v == self@[key],
                None => !self@.dom().contains(key),
            },
    {
        match self.m.get(&key) {
            Some(v) => Some(*v),
            None => None,
        }
    }

    /// Number of keys currently present.
    pub fn len(&self) -> (n: usize)
        ensures
            n == self@.dom().len(),
    {
        self.m.len()
    }
}

/// One recorded increment of a counter value; wraps at the top of the
/// `u32` range.
pub fn bump(v: u32) -> (r: u32)
    ensures
        r == bumped(v),
{
    if v == 0xFFFF_FFFFu32 {
        0
    } else {
        v + 1
    }
}

/// One recorded increment of a counter value in place; wraps at the top
/// of the `u32` range.
pub fn bump_mut(v: &mut u32)
    ensures
        *final(v) == bumped(*old(v)),
{
    *v = bump(*v);
}

/// Runs a full operation sequence against the table — the measured phase
/// of one run, minus the clock. Every run executes its whole budget: the
/// count of executed operations equals the sequence's length, and the
/// table ends in the state the contract's transition functions prescribe.
pub fn run_ops(table: &mut ModelTable, ops: &Vec<Op>) -> (executed: u64)
    requires
        ops@.len() <= u64::MAX,
    ensures
        executed == ops@.len(),
        final(table)@ == apply_ops(old(table)@, ops@),
{
    let mut i: usize = 0;
    while i < ops.len()
        invariant
            i <= ops@.len() <= u64::MAX,
            table@ == apply_ops(old(table)@, ops@.subrange(0, i as int)),
        decreases ops@.len() - i,
    {
        let ghost pre = table@;
        match ops[i] {
            Op::Read(k) => {
                table.get(k);
            },
            Op::Insert(k) => {
                table.insert(k);
            },
            Op::Remove(k) => {
                table.remove(k);
            },
            Op::Update(k) => {
                table.update(k);
            },
        }
        proof {
            assert(ops@.subrange(0, i + 1).drop_last() =~= ops@.subrange(0, i as int));
            assert(table@ == apply_op(pre, ops@[i as int]));
        }
        i = i + 1;
    }
    proof {
        assert(ops@.subrange(0, ops@.len() as int) =~= ops@);
    }
    i as u64
}

/// Prefills the table with exactly `count` distinct keys — the key domain
/// is injective from the `u64` indices `0 .. count` — so a fraction `f`
/// of capacity `2^c` yields `floor(f * 2^c)` present keys: none for
/// `f = 0`, a table populated to capacity for `f = 1`.
pub fn prefill(table: &mut ModelTable, count: u64) -> (inserted: u64)
    requires
        old(table)@ == empty_table(),
    ensures
        inserted == count,
        final(table)@.dom() =~= Set::new(|k: u64| k < count),
        forall|k: u64| k < count ==> final(table)@[k] == 0u32,
{
    let mut i: u64 = 0;
    while i < count
        invariant
            i <= count,
            table@.dom() =~= Set::new(|k: u64| k < i),
            forall|k: u64| k < i ==> table@[k] == 0u32,
        decreases count - i,
    {
        let fresh = table.insert(i);
        assert(fresh);
        i = i + 1;
    }
    i
}

/// The untimed start of one run's lifecycle: constructs a fresh table
/// sized for the workload's capacity and prefills it with exactly the
/// workload's prefill count of distinct keys. Each run gets its own
/// table, so no earlier run can bias its occupancy.
pub fn prepare_table(w: &crate::workload::Workload) -> (t: ModelTable)
    requires
        w.wf(),
    ensures
        t@.dom() =~= Set::new(|k: u64| (k as int) < w.spec_prefill_count()),
        forall|k: u64| (k as int) < w.spec_prefill_count() ==> t@[k] == 0u32,
{
    let cap = w.capacity();
    let cap_hint: usize = if cap > usize::MAX as u64 {
        usize::MAX
    } else {
        cap as usize
    };
    let mut t = ModelTable::with_capacity(cap_hint);
    let count = w.prefill_count();
    prefill(&mut t, count);
    t
}

} // verus!
