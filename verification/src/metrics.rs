//! Per-channel counters and their field-wise aggregation.
//!
//! Each channel worker owns one `Metrics` value and mutates only it; after
//! all workers have finished, the orchestrator sums the per-channel values
//! field by field into one aggregate.

use vstd::prelude::*;

verus! {

/// Counters accumulated by one channel, or the field-wise sum over all
/// channels.
///
/// `total` counts attempted messages, `success` those acknowledged
/// positively, `failed` those acknowledged negatively, and `bytes` the
/// bytes of every attempted send. A channel that sees only resolved
/// acknowledgments keeps `total == success + failed`; an acknowledgment
/// that times out, errors, or is malformed leaves an attempt counted in
/// `total` with neither `success` nor `failed` incremented.
#[derive(Clone, Copy, Debug, PartialEq, Eq, Structural)]
pub struct Metrics {
    pub total: usize,
    pub success: usize,
    pub failed: usize,
    pub bytes: usize,
}

/// Every resolved acknowledgment accounts for exactly one attempt, so the
/// resolved counters never outrun the attempts.
pub open spec fn consistent(m: Metrics) -> bool {
    m.success + m.failed <= m.total
}

/// Sum of the `total` fields of a sequence of metrics.
pub open spec fn sum_total(s: Seq<Metrics>) -> int
    decreases s.len(),
{
    if s.len() == 0 {
        0
    } else {
        sum_total(s.drop_last()) + s.last().total
    }
}

/// Sum of the `success` fields of a sequence of metrics.
pub open spec fn sum_success(s: Seq<Metrics>) -> int
    decreases s.len(),
{
    if s.len() == 0 {
        0
    } else {
        sum_success(s.drop_last()) + s.last().success
    }
}

/// Sum of the `failed` fields of a sequence of metrics.
pub open spec fn sum_failed(s: Seq<Metrics>) -> int
    decreases s.len(),
{
    if s.len() == 0 {
        0
    } else {
        sum_failed(s.drop_last()) + s.last().failed
    }
}

/// Sum of the `bytes` fields of a sequence of metrics.
pub open spec fn sum_bytes(s: Seq<Metrics>) -> int
    decreases s.len(),
{
    if s.len() == 0 {
        0
    } else {
        sum_bytes(s.drop_last()) + s.last().bytes
    }
}

/// The aggregate of a sequence of metrics is its field-wise sum.
pub open spec fn is_aggregate_of(agg: Metrics, s: Seq<Metrics>) -> bool {
    &&& agg.total == sum_total(s)
    &&& agg.success == sum_success(s)
    &&& agg.failed == sum_failed(s)
    &&& agg.bytes == sum_bytes(s)
}

impl Metrics {
    /// A fresh, all-zero counter, as each channel starts with and as a
    /// channel that never connects returns.
    pub fn new() -> (m: Metrics)
        ensures
            m == (Metrics { total: 0, success: 0, failed: 0, bytes: 0 }),
    {
        Metrics { total: 0, success: 0, failed: 0, bytes: 0 }
    }
}

proof fn lemma_sum_push(s: Seq<Metrics>, m: Metrics)
    ensures
        sum_total(s.push(m)) == sum_total(s) + m.total,
        sum_success(s.push(m)) == sum_success(s) + m.success,
        sum_failed(s.push(m)) == sum_failed(s) + m.failed,
        sum_bytes(s.push(m)) == sum_bytes(s) + m.bytes,
{
    assert(s.push(m).drop_last() =~= s);
}

/// Field-wise sum of all per-channel metrics, the only cross-channel
/// combination the orchestrator performs. An empty collection of workers
/// yields the all-zero aggregate.
pub fn aggregate(parts: &Vec<Metrics>) -> (agg: Metrics)
    requires
        sum_total(parts@) <= usize::MAX,
        sum_success(parts@) <= usize::MAX,
        sum_failed(parts@) <= usize::MAX,
        sum_bytes(parts@) <= usize::MAX,
    ensures
        is_aggregate_of(agg, parts@),
{
    let mut agg = Metrics::new();
    let mut i: usize = 0;
    proof {
        assert(parts@.subrange(0, 0) =~= Seq::<Metrics>::empty());
    }
    while i < parts.len()
        invariant
            i <= parts.len(),
            is_aggregate_of(agg, parts@.subrange(0, i as int)),
            sum_total(parts@) <= usize::MAX,
            sum_success(parts@) <= usize::MAX,
            sum_failed(parts@) <= usize::MAX,
            sum_bytes(parts@) <= usize::MAX,
        decreases parts.len() - i,
    {
        proof {
            lemma_sum_push(parts@.subrange(0, i as int), parts@[i as int]);
            assert(parts@.subrange(0, i + 1) =~= parts@.subrange(0, i as int).push(
                parts@[i as int],
            ));
            lemma_sum_prefix_bound(parts@, i + 1);
        }
        let p = &parts[i];
        agg = Metrics {
            total: agg.total + p.total,
            success: agg.success + p.success,
            failed: agg.failed + p.failed,
            bytes: agg.bytes + p.bytes,
        };
        i = i + 1;
    }
    proof {
        assert(parts@.subrange(0, parts@.len() as int) =~= parts@);
    }
    agg
}

/// Each field of every metrics value is nonnegative, so a prefix sum never
/// exceeds the sum over the whole sequence.
proof fn lemma_sum_prefix_bound(s: Seq<Metrics>, n: int)
    requires
        0 <= n <= s.len(),
    ensures
        sum_total(s.subrange(0, n)) <= sum_total(s),
        sum_success(s.subrange(0, n)) <= sum_success(s),
        sum_failed(s.subrange(0, n)) <= sum_failed(s),
        sum_bytes(s.subrange(0, n)) <= sum_bytes(s),
    decreases s.len(),
{
    if n < s.len() {
        assert(s.drop_last().subrange(0, n) =~= s.subrange(0, n));
        lemma_sum_prefix_bound(s.drop_last(), n);
    } else {
        assert(s.subrange(0, n) =~= s);
    }
}

/// Aggregation is exactly field-wise addition over any number of workers:
/// appending one more worker's metrics to the collection adds its fields
/// to the aggregate, and no workers at all yield the all-zero aggregate.
pub proof fn lemma_aggregate_additive(s: Seq<Metrics>, m: Metrics)
    ensures
        sum_total(s.push(m)) == sum_total(s) + m.total,
        sum_success(s.push(m)) == sum_success(s) + m.success,
        sum_failed(s.push(m)) == sum_failed(s) + m.failed,
        sum_bytes(s.push(m)) == sum_bytes(s) + m.bytes,
        sum_total(Seq::<Metrics>::empty()) == 0,
        sum_success(Seq::<Metrics>::empty()) == 0,
        sum_failed(Seq::<Metrics>::empty()) == 0,
        sum_bytes(Seq::<Metrics>::empty()) == 0,
{
    lemma_sum_push(s, m);
}

} // verus!
