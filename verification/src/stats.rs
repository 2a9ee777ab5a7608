//! Per-worker request statistics and their associative, commutative merge.
//!
//! Each worker owns one `Stats` value, records every request outcome into
//! it, and hands it to the orchestrator when its time budget expires; the
//! orchestrator folds all of them into one total with `merge`.

use vstd::prelude::*;
use vstd::seq_lib::{commutative_foldl, lemma_fold_left_permutation};

verus! {

/// The mathematical content of a `Stats` value: the three counters as
/// unbounded integers.
pub struct StatsModel {
    pub succ: int,
    pub fail: int,
    pub lat: int,
}

/// Counters for one worker: successful requests, failed requests, and the
/// summed latency (in milliseconds) of the successful requests only.
#[derive(Clone, Copy, Debug, PartialEq, Eq, Structural)]
pub struct Stats {
    pub successful_requests: u64,
    pub failed_requests: u64,
    pub total_latency_ms: u64,
}

impl View for Stats {
    type V = StatsModel;

    open spec fn view(&self) -> StatsModel {
        StatsModel {
            succ: self.successful_requests as int,
            fail: self.failed_requests as int,
            lat: self.total_latency_ms as int,
        }
    }
}

/// Field-wise addition of two statistics models.
pub open spec fn merged(a: StatsModel, b: StatsModel) -> StatsModel {
    StatsModel { succ: a.succ + b.succ, fail: a.fail + b.fail, lat: a.lat + b.lat }
}

/// The zero of `merged`.
pub open spec fn zero_model() -> StatsModel {
    StatsModel { succ: 0, fail: 0, lat: 0 }
}

/// `merged`, as a fold operator.
pub open spec fn merge_op() -> spec_fn(StatsModel, StatsModel) -> StatsModel {
    |acc: StatsModel, m: StatsModel| merged(acc, m)
}

/// The total of a sequence of statistics models, folded left to right.
pub open spec fn total_model(s: Seq<StatsModel>) -> StatsModel {
    s.fold_left(zero_model(), merge_op())
}

/// The models of a sequence of `Stats` values.
pub open spec fn models(parts: Seq<Stats>) -> Seq<StatsModel> {
    parts.map_values(|s: Stats| s@)
}

/// A model whose counters are all non-negative, as every model of an
/// actual `Stats` value is.
pub open spec fn nonneg(m: StatsModel) -> bool {
    m.succ >= 0 && m.fail >= 0 && m.lat >= 0
}

impl Stats {
    /// A zeroed accumulator, created by each worker at its start.
    pub fn new() -> (s: Stats)
        ensures
            s@ == zero_model(),
    {
        Stats { successful_requests: 0, failed_requests: 0, total_latency_ms: 0 }
    }

    /// Record one request that completed successfully in `latency_ms`
    /// milliseconds: the success counter and the latency accumulator grow,
    /// the failure counter does not.
    pub fn record_success(&mut self, latency_ms: u64)
        requires
            old(self).successful_requests < u64::MAX,
            old(self).total_latency_ms + latency_ms <= u64::MAX,
        ensures
            final(self)@ == (StatsModel {
                succ: old(self)@.succ + 1,
                fail: old(self)@.fail,
                lat: old(self)@.lat + latency_ms,
            }),
    {
        self.successful_requests = self.successful_requests + 1;
        self.total_latency_ms = self.total_latency_ms + latency_ms;
    }

    /// Record one request that failed: only the failure counter grows; no
    /// latency is accumulated for failed requests.
    pub fn record_failure(&mut self)
        requires
            old(self).failed_requests < u64::MAX,
        ensures
            final(self)@ == (StatsModel {
                succ: old(self)@.succ,
                fail: old(self)@.fail + 1,
                lat: old(self)@.lat,
            }),
    {
        self.failed_requests = self.failed_requests + 1;
    }

    /// In-place field-wise addition of another worker's counters.
    pub fn merge(&mut self, other: &Stats)
        requires
            old(self).successful_requests + other.successful_requests <= u64::MAX,
            old(self).failed_requests + other.failed_requests <= u64::MAX,
            old(self).total_latency_ms + other.total_latency_ms <= u64::MAX,
        ensures
            final(self)@ == merged(old(self)@, other@),
    {
        self.successful_requests = self.successful_requests + other.successful_requests;
        self.failed_requests = self.failed_requests + other.failed_requests;
        self.total_latency_ms = self.total_latency_ms + other.total_latency_ms;
    }

    /// The average latency of the successful requests, as the exact
    /// rational `total_latency_ms / successful_requests`: whole
    /// milliseconds plus remainder. When nothing succeeded the average is
    /// zero, not an error.
    pub fn avg_latency_ms(&self) -> (avg: (u64, u64))
        ensures
            self.successful_requests == 0 ==> avg == (0u64, 0u64),
            self.successful_requests != 0 ==> avg.0 == self.total_latency_ms as int / self.successful_requests as int
                && avg.1 == self.total_latency_ms as int % self.successful_requests as int,
    {
        if self.successful_requests == 0 {
            (0, 0)
        } else {
            (
                self.total_latency_ms / self.successful_requests,
                self.total_latency_ms % self.successful_requests,
            )
        }
    }

    /// The total number of requests this accumulator has seen.
    pub fn total_requests(&self) -> (t: u64)
        requires
            self.successful_requests + self.failed_requests <= u64::MAX,
        ensures
            t == self@.succ + self@.fail,
    {
        self.successful_requests + self.failed_requests
    }
}

/// Law: `merged` is commutative — merging two workers' counters does not
/// depend on which arrives first.
pub proof fn lemma_merged_commutative(a: StatsModel, b: StatsModel)
    ensures
        merged(a, b) == merged(b, a),
{
}

/// Law: `merged` is associative — folding three workers' counters gives
/// the same total however the merges are grouped.
pub proof fn lemma_merged_associative(a: StatsModel, b: StatsModel, c: StatsModel)
    ensures
        merged(merged(a, b), c) == merged(a, merged(b, c)),
{
}

/// Law: the folded total of a collection of counters is the same for
/// every arrival order — any two sequences holding the same counters give
/// the same total.
pub proof fn lemma_total_model_permutation(s: Seq<StatsModel>, t: Seq<StatsModel>)
    requires
        s.to_multiset() == t.to_multiset(),
    ensures
        total_model(s) == total_model(t),
{
    assert(commutative_foldl(merge_op()));
    lemma_fold_left_permutation(s, t, merge_op(), zero_model());
}

/// Folding one more model onto the total of a prefix gives the total of
/// the one-longer prefix.
pub proof fn lemma_total_model_take_step(s: Seq<StatsModel>, i: int)
    requires
        0 <= i < s.len(),
    ensures
        total_model(s.take(i + 1)) == merged(total_model(s.take(i)), s[i]),
{
    assert(s.take(i + 1).drop_last() =~= s.take(i));
    assert(s.take(i + 1).last() == s[i]);
}

/// The total of non-negative models is non-negative.
pub proof fn lemma_total_model_nonneg(s: Seq<StatsModel>)
    requires
        forall|j: int| 0 <= j < s.len() ==> nonneg(#[trigger] s[j]),
    ensures
        nonneg(total_model(s)),
    decreases s.len(),
{
    if s.len() > 0 {
        assert(s.drop_last() =~= s.take(s.len() - 1));
        lemma_total_model_nonneg(s.drop_last());
    }
}

/// Each counter of the total of a prefix of non-negative models is
/// bounded by the same counter of the whole total.
pub proof fn lemma_total_model_prefix_le(s: Seq<StatsModel>, i: int)
    requires
        0 <= i <= s.len(),
        forall|j: int| 0 <= j < s.len() ==> nonneg(#[trigger] s[j]),
    ensures
        total_model(s.take(i)).succ <= total_model(s).succ,
        total_model(s.take(i)).fail <= total_model(s).fail,
        total_model(s.take(i)).lat <= total_model(s).lat,
    decreases s.len() - i,
{
    if i == s.len() {
        assert(s.take(i) =~= s);
    } else {
        lemma_total_model_take_step(s, i);
        lemma_total_model_prefix_le(s, i + 1);
    }
}

/// Fold the results of all workers that completed into one total. The
/// orchestrator calls this once, after every worker has been joined.
pub fn total_of(parts: &Vec<Stats>) -> (t: Stats)
    requires
        total_model(models(parts@)).succ <= u64::MAX,
        total_model(models(parts@)).fail <= u64::MAX,
        total_model(models(parts@)).lat <= u64::MAX,
    ensures
        t@ == total_model(models(parts@)),
{
    let ghost ms = models(parts@);
    proof {
        assert(forall|j: int| 0 <= j < ms.len() ==> nonneg(#[trigger] ms[j]));
    }
    let mut t = Stats::new();
    let mut i: usize = 0;
    proof {
        assert(ms.take(0) =~= Seq::<StatsModel>::empty());
    }
    while i < parts.len()
        invariant
            0 <= i <= parts.len(),
            ms == models(parts@),
            ms.len() == parts.len(),
            forall|j: int| 0 <= j < ms.len() ==> nonneg(#[trigger] ms[j]),
            total_model(ms).succ <= u64::MAX,
            total_model(ms).fail <= u64::MAX,
            total_model(ms).lat <= u64::MAX,
            t@ == total_model(ms.take(i as int)),
        decreases parts.len() - i,
    {
        proof {
            lemma_total_model_take_step(ms, i as int);
            lemma_total_model_prefix_le(ms, i as int + 1);
        }
        t.merge(&parts[i]);
        i = i + 1;
    }
    proof {
        assert(ms.take(parts.len() as int) =~= ms);
    }
    t
}

} // verus!
