//! The capability contract: the observable behaviour every concurrent map
//! adapter must honour, stated over a mathematical map from keys to
//! counter values.
//!
//! Keys are `u64` indices (the key domain is injective from the index
//! space, so presence is well defined); values are unsigned counters whose
//! only purpose is to witness the `update` operation's increment.
use vstd::prelude::*;

verus! {

/// The contents of a freshly constructed table: no key is bound.
pub open spec fn empty_table() -> Map<u64, u32> {
    Map::empty()
}

/// `get` returns true iff the key is currently present; it has no side
/// effect on the table.
pub open spec fn op_get(m: Map<u64, u32>, k: u64) -> bool {
    m.dom().contains(k)
}

/// Table contents after `insert(k)`: the key is bound to a fresh zero
/// value, whether or not it was present before.
pub open spec fn after_insert(m: Map<u64, u32>, k: u64) -> Map<u64, u32> {
    m.insert(k, 0u32)
}

/// `insert` returns true iff the key was absent immediately before the
/// call.
pub open spec fn insert_result(m: Map<u64, u32>, k: u64) -> bool {
    !m.dom().contains(k)
}

/// Table contents after `remove(k)`: the key is unbound.
pub open spec fn after_remove(m: Map<u64, u32>, k: u64) -> Map<u64, u32> {
    m.remove(k)
}

/// `remove` returns true iff the key was present immediately before the
/// call.
pub open spec fn remove_result(m: Map<u64, u32>, k: u64) -> bool {
    m.dom().contains(k)
}

/// A counter value after one recorded increment; the counter wraps at the
/// top of the `u32` range.
pub open spec fn bumped(v: u32) -> u32 {
    if v == 0xFFFF_FFFFu32 {
        0u32
    } else {
        (v + 1) as u32
    }
}

/// Table contents after `update(k)`: if the key is present its value has
/// received exactly one increment; an absent key leaves the table
/// unchanged.
pub open spec fn after_update(m: Map<u64, u32>, k: u64) -> Map<u64, u32> {
    if m.dom().contains(k) {
        m.insert(k, bumped(m[k]))
    } else {
        m
    }
}

/// `update` returns true iff the key was present immediately before the
/// call (it never inserts).
pub open spec fn update_result(m: Map<u64, u32>, k: u64) -> bool {
    m.dom().contains(k)
}

/// One contract operation together with its key, as a worker issues it.
pub enum Op {
    Read(u64),
    Insert(u64),
    Remove(u64),
    Update(u64),
}

impl Op {
    /// Whether the operation is a read (and so can have no side effect).
    pub open spec fn is_read(self) -> bool {
        self is Read
    }
}

/// Table contents after one operation.
pub open spec fn apply_op(m: Map<u64, u32>, op: Op) -> Map<u64, u32> {
    match op {
        Op::Read(_) => m,
        Op::Insert(k) => after_insert(m, k),
        Op::Remove(k) => after_remove(m, k),
        Op::Update(k) => after_update(m, k),
    }
}

/// Table contents after a sequence of operations, applied in order.
pub open spec fn apply_ops(m: Map<u64, u32>, ops: Seq<Op>) -> Map<u64, u32>
    decreases ops.len(),
{
    if ops.len() == 0 {
        m
    } else {
        apply_op(apply_ops(m, ops.drop_last()), ops.last())
    }
}

/// Contents after `n` consecutive `update(k)` calls.
pub open spec fn after_n_updates(m: Map<u64, u32>, k: u64, n: nat) -> Map<u64, u32>
    decreases n,
{
    if n == 0 {
        m
    } else {
        after_update(after_n_updates(m, k, (n - 1) as nat), k)
    }
}

/// Law: for a key not present, `insert` reports a fresh insertion, `get`
/// then finds the key, and a repeated `insert` reports it as already
/// present.
pub proof fn lemma_insert_get_reinsert(m: Map<u64, u32>, k: u64)
    requires
        !m.dom().contains(k),
    ensures
        insert_result(m, k),
        op_get(after_insert(m, k), k),
        !insert_result(after_insert(m, k), k),
{
}

/// Law: `remove` reports a removal exactly when the key was present, and
/// `get` afterwards no longer finds the key.
pub proof fn lemma_remove_then_get(m: Map<u64, u32>, k: u64)
    ensures
        remove_result(m, k) <==> m.dom().contains(k),
        !op_get(after_remove(m, k), k),
{
}

/// Law: `update` fails exactly on an absent key; on a present key it
/// records exactly one increment and touches no other binding.
pub proof fn lemma_update_semantics(m: Map<u64, u32>, k: u64)
    ensures
        !update_result(m, k) <==> !m.dom().contains(k),
        m.dom().contains(k) ==> after_update(m, k)[k] == bumped(m[k]),
        after_update(m, k).dom() =~= m.dom(),
        forall|j: u64| j != k && m.dom().contains(j) ==> after_update(m, k)[j] == m[j],
{
}

/// Law: `n` successful updates of one present key, applied in any
/// interleaving with no other operation on that key, add exactly `n` to
/// its counter — no update is lost. Stated below the counter's wrap
/// point; at `2^32 - 1` the counter wraps to zero instead.
pub proof fn lemma_n_updates_no_lost_increment(m: Map<u64, u32>, k: u64, n: nat)
    requires
        m.dom().contains(k),
        m[k] + n < 0x1_0000_0000,
    ensures
        after_n_updates(m, k, n).dom() =~= m.dom(),
        after_n_updates(m, k, n)[k] == m[k] + n,
        forall|i: nat| i < n ==> update_result(after_n_updates(m, k, i), k),
    decreases n,
{
    if n > 0 {
        lemma_n_updates_no_lost_increment(m, k, (n - 1) as nat);
    }
}

/// Law: a run whose every operation is a read leaves the table's key set
/// and all values unchanged.
pub proof fn lemma_read_only_run_preserves_table(m: Map<u64, u32>, ops: Seq<Op>)
    requires
        forall|i: int| 0 <= i < ops.len() ==> (#[trigger] ops[i]).is_read(),
    ensures
        apply_ops(m, ops) == m,
    decreases ops.len(),
{
    if ops.len() > 0 {
        lemma_read_only_run_preserves_table(m, ops.drop_last());
    }
}

} // verus!
