//! Division of a render's total sample budget among independent workers.

use vstd::prelude::*;
use vstd::arithmetic::div_mod::lemma_fundamental_div_mod;

verus! {

/// Number of workers a render uses when nothing else is asked for.
pub const DEFAULT_WORKERS: u16 = 12;

/// Number of workers that get a non-empty share: every worker when each gets
/// at least the base share, else only those that take one of the remainder.
pub open spec fn spec_worker_count(total: nat, workers: nat) -> nat {
    if total / workers == 0 {
        total % workers
    } else {
        workers
    }
}

/// Samples rendered by worker `i`: the base share `total / workers`, plus one
/// for each of the first `total % workers` workers.
pub open spec fn spec_worker_share(total: nat, workers: nat, i: nat) -> nat {
    if i < total % workers {
        total / workers + 1
    } else {
        total / workers
    }
}

/// Sum of a sequence of sample counts.
pub open spec fn spec_sum(s: Seq<u16>) -> int
    decreases s.len(),
{
    if s.len() == 0 {
        0
    } else {
        spec_sum(s.drop_last()) + s.last()
    }
}

/// Splits `total` samples among at most `workers` workers. Each worker gets
/// `total / workers` samples and the remainder is handed out one sample each
/// to the first workers; workers left with nothing are not listed.
pub fn split_samples(total: u16, workers: u16) -> (r: Vec<u16>)
    requires
        workers > 0,
    ensures
        r.len() == spec_worker_count(total as nat, workers as nat),
        forall|i: int|
            0 <= i < r.len() ==> #[trigger] r[i] == spec_worker_share(
                total as nat,
                workers as nat,
                i as nat,
            ),
        spec_sum(r@) == total,
        forall|i: int| 0 <= i < r.len() ==> #[trigger] r[i] > 0,
        forall|i: int, j: int| 0 <= i < r.len() && 0 <= j < r.len() ==> r[i] <= r[j] + 1,
{
    let base: u16 = total / workers;
    let rem: u16 = total % workers;
    proof {
        lemma_fundamental_div_mod(total as int, workers as int);
        assert(workers * base >= base) by (nonlinear_arith)
            requires
                workers >= 1,
                base >= 0,
        ;
    }
    let count: u16 = if base == 0 {
        rem
    } else {
        workers
    };
    let mut r: Vec<u16> = Vec::new();
    let mut i: u16 = 0;
    while i < count
        invariant
            i <= count,
            count == spec_worker_count(total as nat, workers as nat),
            base == total / workers,
            rem == total % workers,
            total == workers * base + rem,
            rem < workers,
            rem > 0 ==> base < total,
            r.len() == i,
            forall|k: int|
                0 <= k < r.len() ==> #[trigger] r[k] == spec_worker_share(
                    total as nat,
                    workers as nat,
                    k as nat,
                ),
            spec_sum(r@) == i * base + (if i <= rem {
                i as int
            } else {
                rem as int
            }),
        decreases count - i,
    {
        let share: u16 = if i < rem {
            base + 1
        } else {
            base
        };
        let ghost before = r@;
        r.push(share);
        proof {
            assert(r@.drop_last() =~= before);
            assert((i + 1) * base == i * base + base) by (nonlinear_arith);
        }
        i = i + 1;
    }
    proof {
        if base == 0 {
            assert(count == rem);
            assert(i * base == 0) by (nonlinear_arith)
                requires
                    base == 0,
            ;
        } else {
            assert(count == workers);
            assert(i * base == workers * base) by (nonlinear_arith)
                requires
                    i == workers,
            ;
        }
    }
    r
}

} // verus!
