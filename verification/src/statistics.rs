//! Latency recorder: fixed-bucket cumulative histograms and the percentile
//! engine that reads them.

use crate::text::{decimal, push_decimal};
use vstd::prelude::*;
use vstd::string::*;

verus! {

/// One bucket of a histogram snapshot: how many samples were at most
/// `upper_bound`. The last bucket of a histogram also counts every larger
/// sample.
#[derive(Clone, Copy, Debug, PartialEq, Eq, Structural)]
pub struct Bucket {
    /// The largest value, in milliseconds, that belongs to this bucket.
    pub upper_bound: u64,
    /// The number of samples in this bucket and in all buckets below it.
    pub cumulative_count: u64,
}

/// The three percentile estimates that a report shows, in milliseconds.
#[derive(Clone, Copy, Debug, PartialEq, Eq, Structural)]
pub struct Percentiles {
    pub p90: u64,
    pub p95: u64,
    pub p99: u64,
}

/// The number of samples that a snapshot stands for: the count of its last
/// bucket.
pub open spec fn sample_count(buckets: Seq<Bucket>) -> int {
    if buckets.len() == 0 {
        0
    } else {
        buckets.last().cumulative_count as int
    }
}

/// Bounds strictly ascending, counts never falling, at least one bucket.
pub open spec fn well_formed(buckets: Seq<Bucket>) -> bool {
    &&& buckets.len() >= 1
    &&& forall|i: int, j: int|
        0 <= i < j < buckets.len() ==> buckets[i].upper_bound < buckets[j].upper_bound
    &&& forall|i: int, j: int|
        0 <= i <= j < buckets.len() ==> buckets[i].cumulative_count
            <= buckets[j].cumulative_count
}

/// The bucket that a sample falls into, searched from `from` on: the first
/// whose bound is at least the sample, or the last bucket if there is none.
pub open spec fn slot_from(buckets: Seq<Bucket>, value: int, from: int) -> int
    decreases buckets.len() - from,
{
    if from >= buckets.len() - 1 || value <= buckets[from].upper_bound {
        from
    } else {
        slot_from(buckets, value, from + 1)
    }
}

/// The bucket that a sample falls into.
pub open spec fn slot(buckets: Seq<Bucket>, value: int) -> int {
    slot_from(buckets, value, 0)
}

/// The snapshot after one more sample: the sample's bucket and every bucket
/// above it count one more.
pub open spec fn observed(buckets: Seq<Bucket>, value: int) -> Seq<Bucket> {
    Seq::new(
        buckets.len(),
        |i: int|
            if i >= slot(buckets, value) {
                Bucket {
                    upper_bound: buckets[i].upper_bound,
                    cumulative_count: (buckets[i].cumulative_count + 1) as u64,
                }
            } else {
                buckets[i]
            },
    )
}

/// The buckets `start`, `start + width`, ... (`count` of them), all empty.
pub open spec fn linear_layout(start: int, width: int, count: int) -> Seq<Bucket> {
    Seq::new(
        count as nat,
        |i: int| Bucket { upper_bound: (start + i * width) as u64, cumulative_count: 0 },
    )
}

/// Whether bucket `i` holds at least `percent` hundredths of all samples.
pub open spec fn reaches(buckets: Seq<Bucket>, i: int, percent: int) -> bool {
    100 * buckets[i].cumulative_count >= percent * sample_count(buckets)
}

/// The first bucket from `from` on that reaches `percent`, or the number of
/// buckets if none does.
pub open spec fn rank_from(buckets: Seq<Bucket>, percent: int, from: int) -> int
    decreases buckets.len() - from,
{
    if from >= buckets.len() {
        buckets.len() as int
    } else if reaches(buckets, from, percent) {
        from
    } else {
        rank_from(buckets, percent, from + 1)
    }
}

/// The first bucket that reaches `percent`.
pub open spec fn rank(buckets: Seq<Bucket>, percent: int) -> int {
    rank_from(buckets, percent, 0)
}

/// The percentile estimate: the upper bound of the first bucket whose
/// cumulative count reaches `percent` hundredths of the sample count.
pub open spec fn quantile(buckets: Seq<Bucket>, percent: int) -> u64 {
    buckets[rank(buckets, percent)].upper_bound
}

/// What a snapshot reports: nothing without samples, else the three
/// estimates.
pub open spec fn percentiles_of(buckets: Seq<Bucket>) -> Option<Percentiles> {
    if sample_count(buckets) == 0 {
        None
    } else {
        Some(
            Percentiles {
                p90: quantile(buckets, 90),
                p95: quantile(buckets, 95),
                p99: quantile(buckets, 99),
            },
        )
    }
}

/// `slot` is the least bucket whose bound is at least the sample, and the
/// last bucket when the sample is above every bound.
pub proof fn lemma_slot(buckets: Seq<Bucket>, value: int)
    requires
        buckets.len() >= 1,
    ensures
        0 <= slot(buckets, value) < buckets.len(),
        forall|j: int| 0 <= j < slot(buckets, value) ==> buckets[j].upper_bound < value,
        slot(buckets, value) == buckets.len() - 1 || value <= buckets[slot(
            buckets,
            value,
        )].upper_bound,
{
    lemma_slot_from(buckets, value, 0);
}

proof fn lemma_slot_from(buckets: Seq<Bucket>, value: int, from: int)
    requires
        0 <= from < buckets.len(),
    ensures
        from <= slot_from(buckets, value, from) < buckets.len(),
        forall|j: int|
            from <= j < slot_from(buckets, value, from) ==> buckets[j].upper_bound < value,
        slot_from(buckets, value, from) == buckets.len() - 1 || value <= buckets[slot_from(
            buckets,
            value,
            from,
        )].upper_bound,
    decreases buckets.len() - from,
{
    if !(from >= buckets.len() - 1 || value <= buckets[from].upper_bound) {
        lemma_slot_from(buckets, value, from + 1);
    }
}

/// `rank` is the least bucket that reaches the target, and with samples
/// there is one: the last bucket reaches every target up to 100.
pub proof fn lemma_rank(buckets: Seq<Bucket>, percent: int)
    requires
        buckets.len() >= 1,
        0 <= percent <= 100,
    ensures
        0 <= rank(buckets, percent) < buckets.len(),
        reaches(buckets, rank(buckets, percent), percent),
        forall|j: int| 0 <= j < rank(buckets, percent) ==> !reaches(buckets, j, percent),
{
    lemma_rank_from(buckets, percent, 0);
}

proof fn lemma_rank_from(buckets: Seq<Bucket>, percent: int, from: int)
    requires
        0 <= from < buckets.len(),
        0 <= percent <= 100,
    ensures
        from <= rank_from(buckets, percent, from) < buckets.len(),
        reaches(buckets, rank_from(buckets, percent, from), percent),
        forall|j: int|
            from <= j < rank_from(buckets, percent, from) ==> !reaches(buckets, j, percent),
    decreases buckets.len() - from,
{
    let n = sample_count(buckets);
    assert(reaches(buckets, buckets.len() - 1, percent)) by {
        assert(100 * n >= percent * n) by (nonlinear_arith)
            requires
                n >= 0,
                0 <= percent <= 100,
        ;
    }
    if !reaches(buckets, from, percent) {
        lemma_rank_from(buckets, percent, from + 1);
    }
}

/// A higher target is reached no earlier than a lower one.
pub proof fn lemma_rank_is_monotone(buckets: Seq<Bucket>, low: int, high: int)
    requires
        buckets.len() >= 1,
        0 <= low <= high <= 100,
    ensures
        rank(buckets, low) <= rank(buckets, high),
{
    lemma_rank(buckets, low);
    lemma_rank(buckets, high);
    let n = sample_count(buckets);
    let r = rank(buckets, high);
    assert(high * n >= low * n) by (nonlinear_arith)
        requires
            n >= 0,
            low <= high,
    ;
    assert(reaches(buckets, r, low));
}

/// When every sample lies in one bucket, the three estimates are that
/// bucket's upper bound.
pub proof fn lemma_single_bucket_percentiles(buckets: Seq<Bucket>, k: int)
    requires
        0 <= k < buckets.len(),
        sample_count(buckets) > 0,
        forall|j: int| 0 <= j < k ==> buckets[j].cumulative_count == 0,
        forall|j: int|
            k <= j < buckets.len() ==> buckets[j].cumulative_count == sample_count(buckets),
    ensures
        percentiles_of(buckets) == Some(
            Percentiles {
                p90: buckets[k].upper_bound,
                p95: buckets[k].upper_bound,
                p99: buckets[k].upper_bound,
            },
        ),
{
    lemma_single_bucket_rank(buckets, k, 90);
    lemma_single_bucket_rank(buckets, k, 95);
    lemma_single_bucket_rank(buckets, k, 99);
}

proof fn lemma_single_bucket_rank(buckets: Seq<Bucket>, k: int, percent: int)
    requires
        0 <= k < buckets.len(),
        sample_count(buckets) > 0,
        0 < percent <= 100,
        forall|j: int| 0 <= j < k ==> buckets[j].cumulative_count == 0,
        forall|j: int|
            k <= j < buckets.len() ==> buckets[j].cumulative_count == sample_count(buckets),
    ensures
        rank(buckets, percent) == k,
{
    lemma_rank(buckets, percent);
    let n = sample_count(buckets);
    let r = rank(buckets, percent);
    assert(percent * n > 0) by (nonlinear_arith)
        requires
            n > 0,
            percent > 0,
    ;
    assert(100 * n >= percent * n) by (nonlinear_arith)
        requires
            n >= 0,
            0 <= percent <= 100,
    ;
    if r < k {
        assert(!reaches(buckets, r, percent));
    }
    if r > k {
        assert(reaches(buckets, k, percent));
    }
}

/// One more sample keeps a snapshot well formed and adds one to its sample
/// count.
pub proof fn lemma_observed_is_well_formed(buckets: Seq<Bucket>, value: int)
    requires
        well_formed(buckets),
        sample_count(buckets) < u64::MAX,
    ensures
        well_formed(observed(buckets, value)),
        sample_count(observed(buckets, value)) == sample_count(buckets) + 1,
        observed(buckets, value).len() == buckets.len(),
{
    lemma_slot(buckets, value);
    let after = observed(buckets, value);
    let last = buckets.len() - 1;
    assert forall|i: int| 0 <= i < buckets.len() implies buckets[i].cumulative_count
        <= sample_count(buckets) by {
        assert(buckets[i].cumulative_count <= buckets[last].cumulative_count);
    }
    assert forall|i: int, j: int| 0 <= i <= j < after.len() implies after[i].cumulative_count
        <= after[j].cumulative_count by {
        assert(buckets[i].cumulative_count <= buckets[j].cumulative_count);
    }
    assert forall|i: int, j: int| 0 <= i < j < after.len() implies after[i].upper_bound
        < after[j].upper_bound by {
        assert(buckets[i].upper_bound < buckets[j].upper_bound);
    }
}

/// A histogram that holds only copies of one sample estimates every
/// percentile as the bound of that sample's bucket.
pub proof fn lemma_one_value_percentiles(buckets: Seq<Bucket>, value: int)
    requires
        well_formed(buckets),
        sample_count(buckets) == 0,
    ensures
        percentiles_of(observed(buckets, value)) == Some(
            Percentiles {
                p90: buckets[slot(buckets, value)].upper_bound,
                p95: buckets[slot(buckets, value)].upper_bound,
                p99: buckets[slot(buckets, value)].upper_bound,
            },
        ),
{
    lemma_slot(buckets, value);
    lemma_observed_is_well_formed(buckets, value);
    let after = observed(buckets, value);
    let k = slot(buckets, value);
    let last = buckets.len() - 1;
    assert forall|j: int| 0 <= j < buckets.len() implies buckets[j].cumulative_count == 0 by {
        assert(buckets[j].cumulative_count <= buckets[last].cumulative_count);
    }
    lemma_single_bucket_percentiles(after, k);
}

/// How many of `samples` are at most `bound`.
pub open spec fn count_at_most(samples: Seq<int>, bound: int) -> int
    decreases samples.len(),
{
    if samples.len() == 0 {
        0
    } else {
        count_at_most(samples.drop_last(), bound) + if samples.last() <= bound {
            1int
        } else {
            0int
        }
    }
}

/// The snapshot after `samples` were observed one after the other.
pub open spec fn observed_all(buckets: Seq<Bucket>, samples: Seq<int>) -> Seq<Bucket>
    decreases samples.len(),
{
    if samples.len() == 0 {
        buckets
    } else {
        observed(observed_all(buckets, samples.drop_last()), samples.last())
    }
}

/// What the counts mean: after any samples were observed on an empty
/// histogram, each bucket but the last counts the samples that are at most
/// its bound, the last bucket counts them all, and the bounds are as they
/// were.
pub proof fn lemma_counts_are_cumulative(layout: Seq<Bucket>, samples: Seq<int>)
    requires
        well_formed(layout),
        sample_count(layout) == 0,
        samples.len() <= u64::MAX,
    ensures
        well_formed(observed_all(layout, samples)),
        observed_all(layout, samples).len() == layout.len(),
        sample_count(observed_all(layout, samples)) == samples.len(),
        forall|i: int|
            0 <= i < layout.len() ==> (#[trigger] observed_all(layout, samples)[i]).upper_bound
                == layout[i].upper_bound,
        forall|i: int|
            0 <= i < layout.len() - 1 ==> (#[trigger] observed_all(
                layout,
                samples,
            )[i]).cumulative_count == count_at_most(samples, layout[i].upper_bound as int),
    decreases samples.len(),
{
    let last = layout.len() - 1;
    if samples.len() == 0 {
        assert forall|i: int| 0 <= i < layout.len() - 1 implies layout[i].cumulative_count
            == 0 by {
            assert(layout[i].cumulative_count <= layout[last].cumulative_count);
        }
    } else {
        let earlier = samples.drop_last();
        let value = samples.last();
        let before = observed_all(layout, earlier);
        let after = observed_all(layout, samples);
        lemma_counts_are_cumulative(layout, earlier);
        lemma_observed_is_well_formed(before, value);
        lemma_slot(before, value);
        let at = slot(before, value);
        assert forall|i: int| 0 <= i < layout.len() - 1 implies (#[trigger] after[i]).cumulative_count
            == count_at_most(samples, layout[i].upper_bound as int) by {
            assert(before[i].cumulative_count <= before[last].cumulative_count);
            assert(before[i].upper_bound == layout[i].upper_bound);
            if i >= at {
                assert(at != last);
                assert(before[at].upper_bound <= before[i].upper_bound);
            }
        }
    }
}

/// How good an estimate is: with samples observed on an empty histogram,
/// at least `percent` hundredths of them are at most the estimate, unless
/// the estimate is the last bound, and fewer than that are at most the
/// bound just below it: the sample of that rank lies in the bucket whose
/// bound is the estimate.
pub proof fn lemma_percentile_brackets_the_samples(
    layout: Seq<Bucket>,
    samples: Seq<int>,
    percent: int,
)
    requires
        well_formed(layout),
        sample_count(layout) == 0,
        0 < samples.len() <= u64::MAX,
        0 <= percent <= 100,
    ensures
        ({
            let r = rank(observed_all(layout, samples), percent);
            &&& 0 <= r < layout.len()
            &&& quantile(observed_all(layout, samples), percent) == layout[r].upper_bound
            &&& r < layout.len() - 1 ==> 100 * count_at_most(
                samples,
                layout[r].upper_bound as int,
            ) >= percent * samples.len()
            &&& r > 0 ==> 100 * count_at_most(samples, layout[r - 1].upper_bound as int) < percent
                * samples.len()
        }),
{
    let after = observed_all(layout, samples);
    lemma_counts_are_cumulative(layout, samples);
    lemma_rank(after, percent);
    let r = rank(after, percent);
    assert(after[r].upper_bound == layout[r].upper_bound);
    if r < layout.len() - 1 {
        assert(after[r].cumulative_count == count_at_most(samples, layout[r].upper_bound as int));
    }
    if r > 0 {
        assert(!reaches(after, r - 1, percent));
        assert(after[r - 1].cumulative_count == count_at_most(
            samples,
            layout[r - 1].upper_bound as int,
        ));
    }
}

/// The percentile estimates of a snapshot: `None` when it holds no sample,
/// else for each of 90, 95 and 99 the upper bound of the first bucket whose
/// cumulative count is at least that many hundredths of the sample count.
pub fn percentiles(buckets: &Vec<Bucket>) -> (result: Option<Percentiles>)
    ensures
        result == percentiles_of(buckets@),
{
    let n: usize = buckets.len();
    if n == 0 {
        return None;
    }
    let total: u64 = buckets[n - 1].cumulative_count;
    if total == 0 {
        return None;
    }
    let whole: u128 = total as u128;
    let mut p90: Option<u64> = None;
    let mut p95: Option<u64> = None;
    let mut p99: Option<u64> = None;
    let mut i: usize = 0;
    proof {
        lemma_rank(buckets@, 90);
        lemma_rank(buckets@, 95);
        lemma_rank(buckets@, 99);
        lemma_rank_is_monotone(buckets@, 90, 95);
        lemma_rank_is_monotone(buckets@, 95, 99);
    }
    while p99.is_none()
        invariant
            n == buckets@.len(),
            n >= 1,
            whole == sample_count(buckets@),
            0 <= i <= n,
            rank(buckets@, 99) < n,
            p99 is None ==> i <= rank(buckets@, 99),
            rank(buckets@, 90) <= rank(buckets@, 95) <= rank(buckets@, 99),
            forall|j: int| 0 <= j < rank(buckets@, 90) ==> !reaches(buckets@, j, 90),
            forall|j: int| 0 <= j < rank(buckets@, 95) ==> !reaches(buckets@, j, 95),
            forall|j: int| 0 <= j < rank(buckets@, 99) ==> !reaches(buckets@, j, 99),
            reaches(buckets@, rank(buckets@, 90), 90),
            reaches(buckets@, rank(buckets@, 95), 95),
            reaches(buckets@, rank(buckets@, 99), 99),
            p90 == if rank(buckets@, 90) < i {
                Some(quantile(buckets@, 90))
            } else {
                None
            },
            p95 == if rank(buckets@, 95) < i {
                Some(quantile(buckets@, 95))
            } else {
                None
            },
            p99 == if rank(buckets@, 99) < i {
                Some(quantile(buckets@, 99))
            } else {
                None
            },
        decreases n - i,
    {
        let bucket: Bucket = buckets[i];
        let held: u128 = 100 * (bucket.cumulative_count as u128);
        proof {
            assert((held >= 90 * whole) == reaches(buckets@, i as int, 90));
            assert((held >= 95 * whole) == reaches(buckets@, i as int, 95));
            assert((held >= 99 * whole) == reaches(buckets@, i as int, 99));
        }
        if p90.is_none() && held >= 90 * whole {
            p90 = Some(bucket.upper_bound);
        }
        if p95.is_none() && held >= 95 * whole {
            p95 = Some(bucket.upper_bound);
        }
        if held >= 99 * whole {
            p99 = Some(bucket.upper_bound);
        }
        i = i + 1;
    }
    match (p90, p95, p99) {
        (Some(a), Some(b), Some(c)) => Some(Percentiles { p90: a, p95: b, p99: c }),
        _ => None,
    }
}

/// A latency histogram: ascending bucket bounds in milliseconds, each with
/// the number of samples at or below it, the last bucket taking every larger
/// sample as well.
pub struct Histogram {
    buckets: Vec<Bucket>,
    total: u64,
}

impl View for Histogram {
    type V = Seq<Bucket>;

    closed spec fn view(&self) -> Seq<Bucket> {
        self.buckets@
    }
}

impl Histogram {
    /// The invariant: a well-formed snapshot whose last bucket counts every
    /// sample.
    pub closed spec fn wf(&self) -> bool {
        &&& well_formed(self.buckets@)
        &&& self.total as int == sample_count(self.buckets@)
    }

    /// The number of samples recorded.
    pub closed spec fn samples(&self) -> int {
        self.total as int
    }

    /// The sample count is the count of the last bucket, and the buckets are
    /// well formed.
    pub proof fn lemma_wf(&self)
        requires
            self.wf(),
        ensures
            well_formed(self@),
            self.samples() == sample_count(self@),
            0 <= self.samples() <= u64::MAX,
    {
    }

    /// An empty histogram with `count` buckets at `start`, `start + width`,
    /// `start + 2 * width` and so on. `None` when `count` is zero, when
    /// `width` is zero, or when the largest bound does not fit in 64 bits.
    pub fn linear(start: u64, width: u64, count: usize) -> (result: Option<Histogram>)
        ensures
            result is Some <==> count >= 1 && width >= 1 && start + (count - 1) * width
                <= u64::MAX,
            result is Some ==> result.unwrap().wf() && result.unwrap()@ == linear_layout(
                start as int,
                width as int,
                count as int,
            ) && result.unwrap().samples() == 0,
    {
        if count == 0 || width == 0 {
            return None;
        }
        let mut buckets: Vec<Bucket> = Vec::new();
        let mut bound: u64 = start;
        buckets.push(Bucket { upper_bound: bound, cumulative_count: 0 });
        let mut i: usize = 1;
        while i < count
            invariant
                1 <= i <= count,
                width >= 1,
                buckets@.len() == i,
                bound == start + (i - 1) * width,
                forall|j: int|
                    0 <= j < i ==> buckets@[j] == (Bucket {
                        upper_bound: (start + j * width) as u64,
                        cumulative_count: 0,
                    }) && start + j * width <= bound,
            decreases count - i,
        {
            proof {
                assert((i - 1) * width + width == i * width) by (nonlinear_arith);
                assert((count - 1) * width >= i * width) by (nonlinear_arith)
                    requires
                        count - 1 >= i,
                        width >= 1,
                ;
            }
            match bound.checked_add(width) {
                Some(next) => {
                    bound = next;
                },
                None => {
                    return None;
                },
            }
            buckets.push(Bucket { upper_bound: bound, cumulative_count: 0 });
            i = i + 1;
        }
        proof {
            assert(buckets@ =~= linear_layout(start as int, width as int, count as int));
            assert forall|a: int, b: int| 0 <= a < b < buckets@.len() implies buckets@[a].upper_bound
                < buckets@[b].upper_bound by {
                assert(a * width < b * width) by (nonlinear_arith)
                    requires
                        a < b,
                        width >= 1,
                ;
            }
        }
        Some(Histogram { buckets, total: 0 })
    }

    /// The number of samples recorded.
    pub fn count(&self) -> (n: u64)
        ensures
            n as int == self.samples(),
    {
        self.total
    }

    /// The buckets as they stand.
    pub fn snapshot(&self) -> (buckets: Vec<Bucket>)
        ensures
            buckets@ == self@,
    {
        self.buckets.clone()
    }

    /// Records one sample of `value` milliseconds: its bucket, the first
    /// whose bound is at least `value` or else the last, and every bucket
    /// above it count one more.
    pub fn observe(&mut self, value: u128)
        requires
            old(self).wf(),
            old(self).samples() < u64::MAX,
        ensures
            final(self).wf(),
            final(self)@ == observed(old(self)@, value as int),
            final(self).samples() == old(self).samples() + 1,
    {
        let n: usize = self.buckets.len();
        let ghost before = self.buckets@;
        proof {
            lemma_slot(before, value as int);
            lemma_observed_is_well_formed(before, value as int);
        }
        let mut at: usize = 0;
        while at + 1 < n && value > self.buckets[at].upper_bound as u128
            invariant
                n == before.len(),
                n >= 1,
                self.buckets@ == before,
                at < n,
                slot_from(before, value as int, at as int) == slot(before, value as int),
            decreases n - at,
        {
            at = at + 1;
        }
        assert(at == slot(before, value as int));
        let mut i: usize = at;
        while i < n
            invariant
                n == before.len(),
                at <= i <= n,
                at == slot(before, value as int),
                self.buckets@.len() == n,
                self.total == old(self).total,
                sample_count(before) < u64::MAX,
                well_formed(before),
                forall|j: int|
                    0 <= j < n ==> self.buckets@[j] == if at <= j < i {
                        observed(before, value as int)[j]
                    } else {
                        before[j]
                    },
            decreases n - i,
        {
            let bucket: Bucket = self.buckets[i];
            proof {
                assert(before[i as int].cumulative_count <= before[n - 1].cumulative_count);
            }
            self.buckets.set(
                i,
                Bucket {
                    upper_bound: bucket.upper_bound,
                    cumulative_count: bucket.cumulative_count + 1,
                },
            );
            i = i + 1;
        }
        self.total = self.total + 1;
        assert(self.buckets@ =~= observed(before, value as int));
    }

    /// Records one sample while the histogram has room for it, and tells
    /// whether it did: a histogram that holds `u64::MAX` samples is full and
    /// stays as it is.
    pub fn record(&mut self, value: u128) -> (recorded: bool)
        requires
            old(self).wf(),
        ensures
            final(self).wf(),
            recorded == (old(self).samples() < u64::MAX),
            recorded ==> final(self)@ == observed(old(self)@, value as int),
            recorded ==> final(self).samples() == old(self).samples() + 1,
            !recorded ==> final(self)@ == old(self)@,
            !recorded ==> final(self).samples() == old(self).samples(),
    {
        if self.total < u64::MAX {
            self.observe(value);
            true
        } else {
            false
        }
    }

    /// The percentile estimates of what was recorded so far.
    pub fn percentiles(&self) -> (result: Option<Percentiles>)
        ensures
            result == percentiles_of(self@),
    {
        percentiles(&self.buckets)
    }
}

/// The title under which connect latencies are reported.
pub open spec fn connect_title() -> Seq<char> {
    "Connect Latency Histogram"@
}

/// The title under which publish latencies are reported.
pub open spec fn publish_title() -> Seq<char> {
    "Publish MQTT Message Latency"@
}

/// The title under which end-to-end delivery latencies are reported.
pub open spec fn delivery_title() -> Seq<char> {
    "E2E MQTT Message Delivery Latency"@
}

/// One report line: the title, then the three estimates in milliseconds.
pub open spec fn report_line(title: Seq<char>, p: Percentiles) -> Seq<char> {
    title + " P90: "@ + decimal(p.p90 as nat) + "ms, P95: "@ + decimal(p.p95 as nat)
        + "ms, P99: "@ + decimal(p.p99 as nat) + "ms"@
}

/// The report lines of one histogram: none without samples, else one.
pub open spec fn report_of(title: Seq<char>, buckets: Seq<Bucket>) -> Seq<Seq<char>> {
    match percentiles_of(buckets) {
        None => Seq::empty(),
        Some(p) => seq![report_line(title, p)],
    }
}

/// Writes one report line.
pub fn format_report_line(title: &str, p: &Percentiles) -> (line: String)
    ensures
        line@ == report_line(title@, *p),
{
    let mut line = String::new();
    line.append(title);
    line.append(" P90: ");
    push_decimal(&mut line, p.p90 as u128);
    line.append("ms, P95: ");
    push_decimal(&mut line, p.p95 as u128);
    line.append("ms, P99: ");
    push_decimal(&mut line, p.p99 as u128);
    line.append("ms");
    assert(line@ =~= report_line(title@, *p));
    line
}

/// The three histograms of a run: connect, publish and end-to-end delivery
/// latency.
pub struct LatencyHistogram {
    pub connect: Histogram,
    pub publish: Histogram,
    pub subscribe: Histogram,
}

impl LatencyHistogram {
    /// Each of the three histograms is well formed.
    pub open spec fn wf(&self) -> bool {
        &&& self.connect.wf()
        &&& self.publish.wf()
        &&& self.subscribe.wf()
    }

    /// The lines of the final report, in the order connect, publish,
    /// delivery; a histogram without samples has no line.
    pub open spec fn report(&self) -> Seq<Seq<char>> {
        report_of(connect_title(), self.connect@) + report_of(publish_title(), self.publish@)
            + report_of(delivery_title(), self.subscribe@)
    }
}

/// The latency recorder of one run.
pub struct Statistics {
    pub latency: LatencyHistogram,
}

fn push_report(lines: &mut Vec<String>, title: &str, histogram: &Histogram)
    ensures
        final(lines)@.len() == old(lines)@.len() + report_of(title@, histogram@).len(),
        forall|i: int| 0 <= i < old(lines)@.len() ==> final(lines)@[i] == old(lines)@[i],
        forall|i: int|
            old(lines)@.len() <= i < final(lines)@.len() ==> (#[trigger] final(lines)@[i])@
                == report_of(title@, histogram@)[i - old(lines)@.len()],
{
    match histogram.percentiles() {
        None => {},
        Some(p) => {
            lines.push(format_report_line(title, &p));
        },
    }
}

impl Statistics {
    /// Whether this is the empty recorder: connect latency in ten buckets
    /// of 100 ms from 0, publish and delivery latency in twenty buckets of
    /// 10 ms from 0.
    pub open spec fn is_fresh(&self) -> bool {
        &&& self.latency.wf()
        &&& self.latency.connect@ == linear_layout(0, 100, 10)
        &&& self.latency.publish@ == linear_layout(0, 10, 20)
        &&& self.latency.subscribe@ == linear_layout(0, 10, 20)
        &&& self.latency.connect.samples() == 0
        &&& self.latency.publish.samples() == 0
        &&& self.latency.subscribe.samples() == 0
    }

    /// An empty recorder: connect latency in ten buckets of 100 ms from 0,
    /// publish and delivery latency in twenty buckets of 10 ms from 0.
    pub fn new() -> (statistics: Statistics)
        ensures
            statistics.is_fresh(),
    {
        let connect = Histogram::linear(0, 100, 10).unwrap();
        let publish = Histogram::linear(0, 10, 20).unwrap();
        let subscribe = Histogram::linear(0, 10, 20).unwrap();
        Statistics { latency: LatencyHistogram { connect, publish, subscribe } }
    }

    /// The percentile lines of the final report: one for each histogram
    /// that holds samples, in the order connect, publish, delivery.
    pub fn show_statistics(&self) -> (lines: Vec<String>)
        ensures
            lines@.len() == self.latency.report().len(),
            forall|i: int|
                0 <= i < lines@.len() ==> (#[trigger] lines@[i])@ == self.latency.report()[i],
    {
        let mut lines: Vec<String> = Vec::new();
        push_report(&mut lines, "Connect Latency Histogram", &self.latency.connect);
        push_report(&mut lines, "Publish MQTT Message Latency", &self.latency.publish);
        push_report(&mut lines, "E2E MQTT Message Delivery Latency", &self.latency.subscribe);
        lines
    }
}

impl Default for Statistics {
    fn default() -> (statistics: Statistics)
        ensures
            statistics.is_fresh(),
    {
        Statistics::new()
    }
}

} // verus!
