//! The reclamation-quiescence cycle: between two measured runs the
//! orchestrator flushes the global epoch-based reclamation scheme and
//! advances it a bounded number of times, so one run's deferred frees
//! complete before the next run's timer starts.
use vstd::prelude::*;

verus! {

#[verifier::external_type_specification]
#[verifier::external_body]
pub struct ExEpochGuard(crossbeam_epoch::Guard);

/// Relies on crossbeam_epoch::pin: pins the current thread's
/// participant in the global epoch and returns the guard that keeps it
/// pinned.
#[verifier::external_body]
fn epoch_pin() -> (g: crossbeam_epoch::Guard) {
    crossbeam_epoch::pin()
}

/// Relies on crossbeam_epoch::Guard::flush: moves the thread's deferred
/// functions to the global queue so other participants can execute them.
#[verifier::external_body]
fn guard_flush(g: &crossbeam_epoch::Guard) {
    g.flush();
}

/// Relies on crossbeam_epoch::Guard::repin: unpins and immediately
/// re-pins the thread, letting the global epoch advance past it.
#[verifier::external_body]
fn guard_repin(g: &mut crossbeam_epoch::Guard) {
    g.repin();
}

/// Forces a bounded number of reclamation-epoch advances: the current
/// thread's deferred frees are flushed to the global queue and the epoch
/// is re-pinned `rounds` times. The orchestrator runs this after each
/// measurement of an adapter that declares the quiescence requirement,
/// once the configured inter-run delay has passed. The cycle advances
/// `crossbeam_epoch`'s global epoch — the reclamation scheme behind the
/// ordered skiplist strategy; a strategy that reclaims through a
/// collector of its own drains its deferred batches on its own terms
/// during the delay, and this flush does not reach into it.
pub fn quiesce_reclamation(rounds: u32) {
    let mut guard = epoch_pin();
    guard_flush(&guard);
    let mut i: u32 = 0;
    while i < rounds
        decreases rounds - i,
    {
        guard_repin(&mut guard);
        i = i + 1;
    }
}

} // verus!
