//! Configuration values consumed from the command-line collaborator: the
//! workload preset and the hasher strategy, each parsed eagerly from its
//! name, plus the three named workload presets.
use crate::strutil::{lower_seq, str_eq, str_eq_ignore_ascii_case};
use crate::workload::{Mix, Workload};
use vstd::prelude::*;

verus! {

/// A named workload preset.
#[derive(Clone, Copy, Debug, PartialEq, Eq, Structural)]
pub enum WorkloadType {
    ReadHeavy,
    Exchange,
    RapidGrow,
}

/// The workload preset a name selects, compared without ASCII case;
/// unknown names select none.
pub open spec fn spec_workload_of_name(s: Seq<char>) -> Option<WorkloadType> {
    if lower_seq(s) == lower_seq("readheavy"@) || lower_seq(s) == lower_seq("read_heavy"@) {
        Some(WorkloadType::ReadHeavy)
    } else if lower_seq(s) == lower_seq("exchange"@) {
        Some(WorkloadType::Exchange)
    } else if lower_seq(s) == lower_seq("rapidgrow"@) || lower_seq(s) == lower_seq("rapid_grow"@) {
        Some(WorkloadType::RapidGrow)
    } else {
        None
    }
}

impl WorkloadType {
    /// Parses a workload name; an unknown name is rejected eagerly with
    /// exactly the message "unknown workload".
    pub fn from_str(s: &str) -> (r: Result<WorkloadType, &'static str>)
        ensures
            match r {
                Ok(w) => spec_workload_of_name(s@) == Some(w),
                Err(e) => spec_workload_of_name(s@) is None && e@ == "unknown workload"@,
            },
    {
        if str_eq_ignore_ascii_case(s, "readheavy") || str_eq_ignore_ascii_case(s, "read_heavy") {
            Ok(WorkloadType::ReadHeavy)
        } else if str_eq_ignore_ascii_case(s, "exchange") {
            Ok(WorkloadType::Exchange)
        } else if str_eq_ignore_ascii_case(s, "rapidgrow") || str_eq_ignore_ascii_case(
            s,
            "rapid_grow",
        ) {
            Ok(WorkloadType::RapidGrow)
        } else {
            Err("unknown workload")
        }
    }

    /// Builds the preset's workload for the given thread count and sets
    /// the operation budget to the exact multiple `ops_num / ops_den` of
    /// the initial capacity.
    pub fn create(&self, threads: u32, ops_num: u64, ops_den: u64) -> (w: Workload)
        requires
            0 < ops_den <= 0xFFFF_FFFFu64,
            ops_num <= 0xFFFF_FFFFu64,
        ensures
            w == (Workload {
                ops_num,
                ops_den,
                ..match *self {
                    WorkloadType::ReadHeavy => spec_read_heavy(threads),
                    WorkloadType::Exchange => spec_exchange(threads),
                    WorkloadType::RapidGrow => spec_rapid_grow(threads),
                }
            }),
            w.wf(),
    {
        let mut workload = match self {
            WorkloadType::ReadHeavy => WorkloadType::read_heavy(threads),
            WorkloadType::Exchange => WorkloadType::exchange(threads),
            WorkloadType::RapidGrow => WorkloadType::rapid_grow(threads),
        };
        workload.operations(ops_num, ops_den);
        workload
    }

    /// Read-heavy preset: weights {read 98, insert 1, remove 1}, prefill
    /// three quarters, capacity `2^25`.
    pub fn read_heavy(threads: u32) -> (w: Workload)
        ensures
            w == spec_read_heavy(threads),
            w.wf(),
    {
        let mix = Mix { read: 98, insert: 1, remove: 1, update: 0, upsert: 0 };
        let mut w = Workload::new(threads, mix);
        w.initial_capacity_log2(25);
        w.prefill_fraction(3, 4);
        w
    }

    /// Rapid-grow preset: weights {read 5, insert 80, remove 5, update
    /// 10}, no prefill, capacity `2^25`.
    pub fn rapid_grow(threads: u32) -> (w: Workload)
        ensures
            w == spec_rapid_grow(threads),
            w.wf(),
    {
        let mix = Mix { read: 5, insert: 80, remove: 5, update: 10, upsert: 0 };
        let mut w = Workload::new(threads, mix);
        w.initial_capacity_log2(25);
        w.prefill_fraction(0, 1);
        w
    }

    /// Exchange preset: weights {read 10, insert 40, remove 40, update
    /// 10}, prefill three quarters, capacity `2^25`.
    pub fn exchange(threads: u32) -> (w: Workload)
        ensures
            w == spec_exchange(threads),
            w.wf(),
    {
        let mix = Mix { read: 10, insert: 40, remove: 40, update: 10, upsert: 0 };
        let mut w = Workload::new(threads, mix);
        w.initial_capacity_log2(25);
        w.prefill_fraction(3, 4);
        w
    }
}

/// The read-heavy preset's exact parameters.
pub open spec fn spec_read_heavy(threads: u32) -> Workload {
    Workload {
        mix: Mix { read: 98, insert: 1, remove: 1, update: 0, upsert: 0 },
        initial_cap_log2: 25,
        prefill_num: 3,
        prefill_den: 4,
        ops_num: 3,
        ops_den: 4,
        threads,
    }
}

/// The rapid-grow preset's exact parameters.
pub open spec fn spec_rapid_grow(threads: u32) -> Workload {
    Workload {
        mix: Mix { read: 5, insert: 80, remove: 5, update: 10, upsert: 0 },
        initial_cap_log2: 25,
        prefill_num: 0,
        prefill_den: 1,
        ops_num: 3,
        ops_den: 4,
        threads,
    }
}

/// The exchange preset's exact parameters.
pub open spec fn spec_exchange(threads: u32) -> Workload {
    Workload {
        mix: Mix { read: 10, insert: 40, remove: 40, update: 10, upsert: 0 },
        initial_cap_log2: 25,
        prefill_num: 3,
        prefill_den: 4,
        ops_num: 3,
        ops_den: 4,
        threads,
    }
}

/// A hasher strategy for the hashed adapters.
#[derive(Clone, Copy, Debug, PartialEq, Eq, Structural)]
pub enum HasherKind {
    Std,
    AHash,
}

/// The hasher a name selects: exactly "std" or "ahash".
pub open spec fn spec_hasher_of_name(s: Seq<char>) -> Option<HasherKind> {
    if s == "std"@ {
        Some(HasherKind::Std)
    } else if s == "ahash"@ {
        Some(HasherKind::AHash)
    } else {
        None
    }
}

impl HasherKind {
    /// Parses a hasher name; an unknown name is rejected eagerly with
    /// exactly the message naming the two accepted hashers.
    pub fn from_str(s: &str) -> (r: Result<HasherKind, &'static str>)
        ensures
            match r {
                Ok(h) => spec_hasher_of_name(s@) == Some(h),
                Err(e) => spec_hasher_of_name(s@) is None && e@
                    == "invalid hasher, must be one of 'std' or 'ahash'"@,
            },
    {
        if str_eq(s, "std") {
            Ok(HasherKind::Std)
        } else if str_eq(s, "ahash") {
            Ok(HasherKind::AHash)
        } else {
            Err("invalid hasher, must be one of 'std' or 'ahash'")
        }
    }
}

} // verus!
