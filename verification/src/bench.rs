//! Run orchestrator decisions: the thread-count schedule, the skip
//! filter, the run plan for one adapter, and the averaged-latency
//! formula.
use crate::strutil::str_starts_with;
use vstd::prelude::*;

verus! {

/// The thread counts scheduled for available parallelism `n` when no
/// explicit list is supplied: every count up to 10, every second count
/// up to 16, every fourth count above that; a single-thread baseline
/// always comes first.
pub open spec fn spec_schedule(n: u32) -> Seq<u32> {
    if n <= 10 {
        Seq::new(n as nat, |i: int| (i + 1) as u32)
    } else if n <= 16 {
        seq![1u32] + Seq::new((n / 2) as nat, |i: int| (2 * (i + 1)) as u32)
    } else {
        seq![1u32] + Seq::new((n / 4) as nat, |i: int| (4 * (i + 1)) as u32)
    }
}

/// Builds the thread-count schedule for available parallelism `n`.
pub fn thread_schedule(n: u32) -> (r: Vec<u32>)
    ensures
        r@ == spec_schedule(n),
{
    let mut r: Vec<u32> = Vec::new();
    if n <= 10 {
        let mut i: u32 = 0;
        while i < n
            invariant
                i <= n <= 10,
                r@ =~= Seq::new(i as nat, |j: int| (j + 1) as u32),
            decreases n - i,
        {
            r.push(i + 1);
            i = i + 1;
        }
        proof {
            assert(r@ =~= spec_schedule(n));
        }
    } else if n <= 16 {
        r.push(1);
        let steps = n / 2;
        let mut i: u32 = 0;
        while i < steps
            invariant
                i <= steps == n / 2,
                n <= 16,
                r@ =~= seq![1u32] + Seq::new(i as nat, |j: int| (2 * (j + 1)) as u32),
            decreases steps - i,
        {
            r.push(2 * (i + 1));
            i = i + 1;
        }
        proof {
            assert(r@ =~= spec_schedule(n));
        }
    } else {
        r.push(1);
        let steps = n / 4;
        let mut i: u32 = 0;
        while i < steps
            invariant
                i <= steps == n / 4,
                n > 16,
                r@ =~= seq![1u32] + Seq::new(i as nat, |j: int| (4 * (j + 1)) as u32),
            decreases steps - i,
        {
            r.push(4 * (i + 1));
            i = i + 1;
        }
        proof {
            assert(r@ =~= spec_schedule(n));
        }
    }
    r
}

/// Whether an adapter whose display name is `name` is excluded by the
/// configured skip strings: true iff some skip string is a prefix of the
/// name.
pub open spec fn spec_is_skipped(name: Seq<char>, skips: Seq<String>) -> bool {
    exists|i: int| 0 <= i < skips.len() && (#[trigger] skips[i])@.is_prefix_of(name)
}

/// Evaluates the skip filter for one adapter name; this is decided once
/// per adapter, not per thread count.
pub fn is_skipped(name: &str, skips: &Vec<String>) -> (r: bool)
    ensures
        r == spec_is_skipped(name@, skips@),
{
    let mut i: usize = 0;
    while i < skips.len()
        invariant
            i <= skips@.len(),
            forall|j: int| 0 <= j < i ==> !(#[trigger] skips@[j])@.is_prefix_of(name@),
        decreases skips@.len() - i,
    {
        if str_starts_with(name, skips[i].as_str()) {
            return true;
        }
        i = i + 1;
    }
    false
}

/// The thread counts an adapter is measured at: none at all when the
/// skip filter excludes it, the explicit list when one was supplied, and
/// otherwise the schedule derived from the available parallelism. One
/// measurement is emitted per entry.
pub fn plan_runs(
    name: &str,
    skips: &Vec<String>,
    explicit: &Option<Vec<u32>>,
    parallelism: u32,
) -> (r: Vec<u32>)
    ensures
        spec_is_skipped(name@, skips@) ==> r@ == Seq::<u32>::empty(),
        !spec_is_skipped(name@, skips@) ==> match explicit {
            Some(ts) => r@ == ts@,
            None => r@ == spec_schedule(parallelism),
        },
{
    if is_skipped(name, skips) {
        return Vec::new();
    }
    match explicit {
        Some(ts) => {
            let mut r: Vec<u32> = Vec::new();
            let mut i: usize = 0;
            while i < ts.len()
                invariant
                    i <= ts@.len(),
                    r@ =~= ts@.subrange(0, i as int),
                decreases ts@.len() - i,
            {
                r.push(ts[i]);
                i = i + 1;
            }
            proof {
                assert(r@ =~= ts@);
            }
            r
        },
        None => thread_schedule(parallelism),
    }
}

/// Relies on num_cpus::get: the number of logical processors available
/// to this process, which is always at least one; the value depends on
/// the machine and nothing more is promised of it.
#[verifier::external_body]
fn available_parallelism() -> (n: usize)
    ensures
        n >= 1,
{
    num_cpus::get()
}

/// Plans an adapter's runs against the machine's own parallelism: the
/// explicit thread list when one is supplied, otherwise the schedule for
/// the available parallelism, and no runs at all for a skipped adapter.
pub fn plan_runs_auto(name: &str, skips: &Vec<String>, explicit: &Option<Vec<u32>>) -> (r: Vec<
    u32,
>)
    ensures
        spec_is_skipped(name@, skips@) ==> r@ == Seq::<u32>::empty(),
        !spec_is_skipped(name@, skips@) ==> match explicit {
            Some(ts) => r@ == ts@,
            None => exists|n: u32| n >= 1 && r@ == spec_schedule(n),
        },
{
    let n = available_parallelism();
    let n32: u32 = if n >= u32::MAX as usize {
        u32::MAX
    } else {
        n as u32
    };
    plan_runs(name, skips, explicit, n32)
}

/// The averaged per-operation latency of a measured phase, in
/// nanoseconds: the wall-clock time summed over all threads, divided by
/// the operations executed.
pub fn average_latency_ns(spent_ns: u64, threads: u32, total_ops: u64) -> (r: u64)
    requires
        total_ops > 0,
        spent_ns * threads <= u64::MAX,
    ensures
        r == (spent_ns * threads) / (total_ops as int),
{
    (spent_ns * (threads as u64)) / total_ops
}

} // verus!
