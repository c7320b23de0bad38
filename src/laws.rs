use vstd::prelude::*;

use crate::counter::{constructed, incremented, read, written, Counter, Incremented};

verus! {

/// A counter built from `start` and then read returns `start`.
pub proof fn lemma_construct_then_get(
    start: u64,
    built: Result<Counter, String>,
    r: Result<u64, String>,
    after: u64,
)
    requires
        constructed(start, built),
        read(built->Ok_0@, r, after),
    ensures
        r is Ok,
        r->Ok_0 == start,
{
}

/// Writing `v` and then reading returns `v`, whatever the count was before.
pub proof fn lemma_set_then_get(
    v: u64,
    w: Result<(), String>,
    mid: u64,
    r: Result<u64, String>,
    after: u64,
)
    requires
        written(v, w, mid),
        read(mid, r, after),
    ensures
        r is Ok,
        r->Ok_0 == v,
{
}

/// Reads in a row with nothing in between all return the first count and
/// leave it unchanged. A read hands back only the count, so it produces no event.
/// `counts[i]` is the count before the `i`-th read, `results[i]` what it returned.
pub proof fn lemma_reads_repeat(counts: Seq<u64>, results: Seq<Result<u64, String>>)
    requires
        counts.len() == results.len() + 1,
        forall|i: int| 0 <= i < results.len() ==> read(counts[i], #[trigger] results[i], counts[i + 1]),
    ensures
        forall|i: int| 0 <= i < counts.len() ==> #[trigger] counts[i] == counts[0],
        forall|i: int| 0 <= i < results.len() ==> (#[trigger] results[i] is Ok && results[i]->Ok_0 == counts[0]),
    decreases results.len(),
{
    if results.len() > 0 {
        let k = results.len() - 1;
        lemma_reads_repeat(counts.take(k + 1), results.take(k));
        assert(read(counts[k], results[k], counts[k + 1]));
        assert forall|i: int| 0 <= i < counts.len() implies #[trigger] counts[i] == counts[0] by {
            assert(counts.take(k + 1)[k] == counts[k]);
            if i <= k {
                assert(counts.take(k + 1)[i] == counts[i]);
            }
        }
        assert forall|i: int| 0 <= i < results.len() implies (#[trigger] results[i] is Ok && results[i]->Ok_0 == counts[0]) by {
            if i < k {
                assert(results.take(k)[i] == results[i]);
            }
        }
    }
}

/// `k` increments in a row from `n`, where `n + k` fits in a `u64`, all succeed:
/// the count ends at `n + k`, the `i`-th increment (from zero) reports `n + i + 1`,
/// and so the reported values strictly increase.
/// `counts[i]` is the count before the `i`-th increment, `results[i]` what it returned.
pub proof fn lemma_increments_in_sequence(
    n: u64,
    k: nat,
    counts: Seq<u64>,
    results: Seq<Result<Incremented, String>>,
)
    requires
        n + k <= u64::MAX,
        results.len() == k,
        counts.len() == k + 1,
        counts[0] == n,
        forall|i: int| 0 <= i < k ==> incremented(counts[i], #[trigger] results[i], counts[i + 1]),
    ensures
        counts[k as int] == n + k,
        forall|i: int|
            0 <= i < k ==> (#[trigger] results[i] is Ok && results[i]->Ok_0.reports(
                (n + i + 1) as u64,
            )),
        forall|i: int, j: int|
            0 <= i < j < k ==> #[trigger] results[i]->Ok_0.new_counter
                < #[trigger] results[j]->Ok_0.new_counter,
    decreases k,
{
    if k > 0 {
        let m = (k - 1) as nat;
        lemma_increments_in_sequence(n, m, counts.take(m + 1 as int), results.take(m as int));
        assert(counts.take(m + 1 as int)[m as int] == counts[m as int]);
        assert(incremented(counts[m as int], results[m as int], counts[m + 1 as int]));
        assert forall|i: int|
            0 <= i < k implies (#[trigger] results[i] is Ok && results[i]->Ok_0.reports(
            (n + i + 1) as u64,
        )) by {
            if i < m {
                assert(results.take(m as int)[i] == results[i]);
            }
        }
    }
}

} // verus!
