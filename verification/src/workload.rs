//! Workload mix model: operation-ratio weights plus prefill, capacity and
//! operation-budget parameters for one benchmark run.
//!
//! Fractions (prefill fraction, operation multiplier) are held as exact
//! rationals `num / den`, so the derived counts are stated and proved
//! exactly: a prefill fraction `num/den` over capacity `2^c` yields
//! `floor(num * 2^c / den)` keys.
use vstd::arithmetic::power2::{lemma_pow2_strictly_increases, pow2};
use vstd::prelude::*;

verus! {

/// Relative weights of the operation kinds a workload issues, read
/// proportionally against the total weight.
pub struct Mix {
    pub read: u32,
    pub insert: u32,
    pub remove: u32,
    pub update: u32,
    pub upsert: u32,
}

/// Parameters of one benchmark run: the mix, the initial capacity as a
/// power of two, the prefill fraction and the operation budget as a
/// multiple of the capacity.
pub struct Workload {
    pub mix: Mix,
    pub initial_cap_log2: u8,
    pub prefill_num: u64,
    pub prefill_den: u64,
    pub ops_num: u64,
    pub ops_den: u64,
    pub threads: u32,
}

impl Workload {
    /// The parameter ranges under which every derived count fits in `u64`:
    /// proper fractions for prefill, a bounded multiplier for the budget,
    /// and a capacity exponent of at most 32.
    pub open spec fn wf(&self) -> bool {
        &&& 0 < self.prefill_den <= 0xFFFF_FFFFu64
        &&& self.prefill_num <= self.prefill_den
        &&& 0 < self.ops_den <= 0xFFFF_FFFFu64
        &&& self.ops_num <= 0xFFFF_FFFFu64
        &&& self.initial_cap_log2 <= 32
    }

    /// Capacity of the run's table: `2^initial_cap_log2` entries.
    pub open spec fn spec_capacity(&self) -> nat {
        pow2(self.initial_cap_log2 as nat)
    }

    /// Number of distinct keys inserted before measurement starts:
    /// `floor(prefill_fraction * capacity)`.
    pub open spec fn spec_prefill_count(&self) -> int {
        (self.prefill_num * self.spec_capacity()) / (self.prefill_den as int)
    }

    /// Total operation budget of the run:
    /// `floor(operations_multiplier * capacity)`.
    pub open spec fn spec_total_ops(&self) -> int {
        (self.ops_num * self.spec_capacity()) / (self.ops_den as int)
    }

    /// Builds a workload over `threads` worker threads with the given mix,
    /// with the default capacity (`2^25`), no prefill and a budget of
    /// three quarters of the capacity.
    pub fn new(threads: u32, mix: Mix) -> (w: Workload)
        ensures
            w.mix == mix,
            w.threads == threads,
            w.initial_cap_log2 == 25,
            w.prefill_num == 0 && w.prefill_den == 1,
            w.ops_num == 3 && w.ops_den == 4,
            w.wf(),
    {
        Workload {
            mix,
            initial_cap_log2: 25,
            prefill_num: 0,
            prefill_den: 1,
            ops_num: 3,
            ops_den: 4,
            threads,
        }
    }

    /// Sets the initial capacity, expressed as log2 of the entry count.
    pub fn initial_capacity_log2(&mut self, capacity: u8)
        ensures
            *final(self) == (Workload { initial_cap_log2: capacity, ..*old(self) }),
    {
        self.initial_cap_log2 = capacity;
    }

    /// Sets the prefill fraction to the exact rational `num / den`.
    pub fn prefill_fraction(&mut self, num: u64, den: u64)
        requires
            0 < den,
            num <= den,
        ensures
            *final(self) == (Workload { prefill_num: num, prefill_den: den, ..*old(self) }),
    {
        self.prefill_num = num;
        self.prefill_den = den;
    }

    /// Sets the operation budget to the exact multiple `num / den` of the
    /// initial capacity; the multiple may exceed one.
    pub fn operations(&mut self, num: u64, den: u64)
        requires
            0 < den,
        ensures
            *final(self) == (Workload { ops_num: num, ops_den: den, ..*old(self) }),
    {
        self.ops_num = num;
        self.ops_den = den;
    }

    /// Capacity of the run's table, `2^initial_cap_log2`.
    pub fn capacity(&self) -> (c: u64)
        requires
            self.initial_cap_log2 <= 32,
        ensures
            c == self.spec_capacity(),
            c <= 0x1_0000_0000u64,
    {
        pow2_u64(self.initial_cap_log2)
    }

    /// Number of distinct keys the prefill phase inserts.
    pub fn prefill_count(&self) -> (n: u64)
        requires
            self.wf(),
        ensures
            n == self.spec_prefill_count(),
            n <= self.spec_capacity(),
    {
        let cap = self.capacity();
        proof {
            lemma_mul_fits(self.prefill_num, cap, self.prefill_den);
            lemma_div_by_den_bounds(self.prefill_num, cap, self.prefill_den);
        }
        (self.prefill_num * cap) / self.prefill_den
    }

    /// Total operation budget of the run.
    pub fn total_ops(&self) -> (n: u64)
        requires
            self.wf(),
        ensures
            n == self.spec_total_ops(),
    {
        let cap = self.capacity();
        proof {
            lemma_mul_fits(self.ops_num, cap, self.ops_den);
        }
        (self.ops_num * cap) / self.ops_den
    }
}

/// Computes `2^e` for exponents up to 32.
pub fn pow2_u64(e: u8) -> (r: u64)
    requires
        e <= 32,
    ensures
        r == pow2(e as nat),
        r <= 0x1_0000_0000u64,
{
    proof {
        vstd::arithmetic::power2::lemma2_to64();
    }
    let mut r: u64 = 1;
    let mut i: u8 = 0;
    while i < e
        invariant
            i <= e <= 32,
            r == pow2(i as nat),
            r <= 0x1_0000_0000u64,
        decreases e - i,
    {
        proof {
            vstd::arithmetic::power2::lemma_pow2_unfold((i + 1) as nat);
            if ((i + 1) as nat) < 32 {
                lemma_pow2_strictly_increases((i + 1) as nat, 32);
            }
            vstd::arithmetic::power2::lemma2_to64();
        }
        r = r * 2;
        i = i + 1;
    }
    r
}

/// A product `num * cap` with `num` bounded by `2^32 - 1` and `cap` by
/// `2^32` fits in a `u64`.
proof fn lemma_mul_fits(num: u64, cap: u64, den: u64)
    requires
        num <= 0xFFFF_FFFFu64,
        cap <= 0x1_0000_0000u64,
    ensures
        num * cap <= 0xFFFF_FFFF_0000_0000u64,
{
    assert(num * cap <= 0xFFFF_FFFFu64 * 0x1_0000_0000u64) by (nonlinear_arith)
        requires
            num <= 0xFFFF_FFFFu64,
            cap <= 0x1_0000_0000u64,
    ;
}

/// For a proper fraction `num <= den`, the scaled count
/// `floor(num * cap / den)` does not exceed `cap`.
proof fn lemma_div_by_den_bounds(num: u64, cap: u64, den: u64)
    requires
        0 < den,
        num <= den,
    ensures
        (num * cap) / (den as int) <= cap,
{
    assert(num * cap <= den * cap) by (nonlinear_arith)
        requires
            num <= den,
    ;
    assert((den * cap) / (den as int) == cap) by (nonlinear_arith)
        requires
            0 < den,
    ;
    assert((num * cap) / (den as int) <= (den * cap) / (den as int)) by {
        vstd::arithmetic::div_mod::lemma_div_is_ordered(
            (num * cap) as int,
            (den * cap) as int,
            den as int,
        );
    }
}

} // verus!
