//! Latency tracking over a bounded window of samples, and the performance
//! score of a report.

use vstd::prelude::*;
use vstd::relations::{sorted_by, total_ordering};
use std::collections::{HashMap, VecDeque};
use vstd::std_specs::iter::IteratorSpec;

verus! {

broadcast use {vstd::seq_lib::group_to_multiset_ensures, vstd::std_specs::hash::group_hash_axioms};

/// Ascending order on samples.
pub open spec fn sample_leq() -> spec_fn(u64, u64) -> bool {
    |a: u64, b: u64| a <= b
}

/// Sum of a sequence of samples.
pub open spec fn seq_sum(s: Seq<u64>) -> nat
    decreases s.len(),
{
    if s.len() == 0 {
        0
    } else {
        seq_sum(s.drop_last()) + s.last() as nat
    }
}

proof fn lemma_sum_drop_first(s: Seq<u64>)
    requires
        s.len() > 0,
    ensures
        seq_sum(s) == s[0] + seq_sum(s.drop_first()),
    decreases s.len(),
{
    if s.len() > 1 {
        lemma_sum_drop_first(s.drop_last());
        assert(s.drop_last().drop_first() =~= s.drop_first().drop_last());
        assert(s.drop_first().last() == s.last());
        assert(s.drop_last()[0] == s[0]);
    } else {
        assert(s.drop_first() =~= Seq::<u64>::empty());
        assert(s.drop_last() =~= Seq::<u64>::empty());
        assert(s.last() == s[0]);
    }
}

proof fn lemma_sum_prefix(s: Seq<u64>, k: int)
    requires
        0 <= k <= s.len(),
    ensures
        seq_sum(s.take(k)) <= seq_sum(s),
    decreases s.len(),
{
    if k < s.len() {
        assert(s.drop_last().take(k) =~= s.take(k));
        lemma_sum_prefix(s.drop_last(), k);
    } else {
        assert(s.take(k) =~= s);
    }
}

/// Sum of squared distances of the samples from `avg`.
pub open spec fn sq_dev_sum(s: Seq<u64>, avg: u64) -> nat
    decreases s.len(),
{
    if s.len() == 0 {
        0
    } else {
        let d: int = s.last() - avg;
        sq_dev_sum(s.drop_last(), avg) + (d * d) as nat
    }
}

/// Index of the `p`-th percentile among `n` sorted samples.
pub open spec fn percentile_index(p: u64, n: nat) -> int {
    (p * (n - 1)) / 100
}

/// Latency figures of the sample window.
#[derive(Debug)]
pub struct LatencyMetrics {
    pub min_ms: u64,
    pub max_ms: u64,
    pub avg_ms: u64,
    pub std_dev_ms: u64,
    pub percentiles: Vec<(String, u64)>,
    pub histogram: Vec<(u64, u64)>,
}

impl Default for LatencyMetrics {
    fn default() -> (r: Self)
        ensures
            r.min_ms == 0 && r.max_ms == 0 && r.avg_ms == 0 && r.std_dev_ms == 0,
            r.percentiles@.len() == 0,
            r.histogram@.len() == 0,
    {
        LatencyMetrics {
            min_ms: 0,
            max_ms: 0,
            avg_ms: 0,
            std_dev_ms: 0,
            percentiles: Vec::new(),
            histogram: Vec::new(),
        }
    }
}

/// Keeps the most recent latency samples, their running sum, the number of
/// samples ever recorded, and a histogram of 10 ms buckets.
pub struct LatencyTracker {
    samples: VecDeque<u64>,
    max_samples: usize,
    histogram: HashMap<u64, u64>,
    total_sum: u64,
    sample_count: u64,
}

/// The 10 ms bucket a latency falls in.
pub open spec fn bucket_of(latency_ms: u64) -> u64 {
    ((latency_ms / 10) * 10) as u64
}

/// The window after making room for one more sample.
pub open spec fn window_before_push(w: Seq<u64>, max_samples: nat) -> Seq<u64> {
    if w.len() >= max_samples && w.len() > 0 {
        w.drop_first()
    } else {
        w
    }
}

/// Count of bucket `b` in a histogram (0 when absent).
pub open spec fn bucket_count(h: Map<u64, u64>, b: u64) -> nat {
    if h.contains_key(b) {
        h[b] as nat
    } else {
        0
    }
}

impl LatencyTracker {
    /// The samples in the window, oldest first.
    pub closed spec fn window(&self) -> Seq<u64> {
        self.samples@
    }

    /// The window size.
    pub closed spec fn capacity(&self) -> nat {
        self.max_samples as nat
    }

    /// Number of samples ever recorded.
    pub closed spec fn count(&self) -> u64 {
        self.sample_count
    }

    /// Running sum kept for the average.
    pub closed spec fn sum(&self) -> u64 {
        self.total_sum
    }

    /// Histogram counts by bucket.
    pub closed spec fn buckets(&self) -> Map<u64, u64> {
        self.histogram@
    }

    /// The sum is that of the window; the window never holds more samples
    /// than were recorded; no bucket counts more samples than were recorded.
    pub closed spec fn well_formed(&self) -> bool {
        &&& self.total_sum == seq_sum(self.samples@)
        &&& self.samples@.len() <= self.sample_count
        &&& forall|b: u64| #[trigger] self.histogram@.contains_key(b) ==> self.histogram@[b] <= self.sample_count
    }

    /// An empty tracker keeping up to `max_samples` samples.
    pub fn new(max_samples: usize) -> (r: LatencyTracker)
        ensures
            r.well_formed(),
            r.window().len() == 0,
            r.capacity() == max_samples,
            r.count() == 0,
            r.buckets() == Map::<u64, u64>::empty(),
    {
        LatencyTracker {
            samples: VecDeque::new(),
            max_samples,
            histogram: HashMap::new(),
            total_sum: 0,
            sample_count: 0,
        }
    }

    /// Record a latency: when the window is full its oldest sample leaves,
    /// the new one joins, the count grows by one and the sample's bucket
    /// counts one more.
    pub fn record(&mut self, latency_ms: u64)
        requires
            old(self).well_formed(),
            old(self).count() < u64::MAX,
            seq_sum(window_before_push(old(self).window(), old(self).capacity())) + latency_ms
                <= u64::MAX,
        ensures
            final(self).well_formed(),
            final(self).window() == window_before_push(old(self).window(), old(self).capacity()).push(
                latency_ms,
            ),
            final(self).capacity() == old(self).capacity(),
            final(self).count() == old(self).count() + 1,
            final(self).sum() == seq_sum(final(self).window()),
            bucket_count(final(self).buckets(), bucket_of(latency_ms)) == bucket_count(
                old(self).buckets(),
                bucket_of(latency_ms),
            ) + 1,
            forall|b: u64|
                b != bucket_of(latency_ms) ==> bucket_count(final(self).buckets(), b)
                    == bucket_count(old(self).buckets(), b),
    {
        if self.samples.len() >= self.max_samples && self.samples.len() > 0 {
            proof {
                lemma_sum_drop_first(self.samples@);
            }
            let old_sample = match self.samples.pop_front() {
                Some(x) => x,
                None => 0,
            };
            assert(self.samples@ =~= old(self).samples@.drop_first());
            self.total_sum = self.total_sum - old_sample;
        }
        proof {
            assert(self.samples@.push(latency_ms).drop_last() =~= self.samples@);
        }
        self.samples.push_back(latency_ms);
        self.total_sum = self.total_sum + latency_ms;
        self.sample_count = self.sample_count + 1;
        let bucket = (latency_ms / 10) * 10;
        let count: u64 = match self.histogram.get(&bucket) {
            Some(c) => *c,
            None => 0,
        };
        assert(count <= old(self).sample_count);
        self.histogram.insert(bucket, count + 1);
    }

    /// Latency figures of the window. An empty window gives all zeros and no
    /// percentiles or buckets. Otherwise: the smallest and largest sample;
    /// the average (the window's sum over its length, rounded down); the standard deviation as the integer square root of the
    /// mean squared distance from that average (the sum of squares capped
    /// at `u128::MAX`); the 50th, 75th, 90th, 95th and 99th percentiles of
    /// the sorted window at index `p * (n - 1) / 100`; and the histogram.
    pub fn get_metrics(&self) -> (r: LatencyMetrics)
        requires
            self.well_formed(),
        ensures
            self.window().len() == 0 ==> r.min_ms == 0 && r.max_ms == 0 && r.avg_ms == 0
                && r.std_dev_ms == 0 && r.percentiles@.len() == 0 && r.histogram@.len() == 0,
            self.window().len() > 0 ==> {
                let w = self.window();
                let n = w.len();
                let sorted = w.sort_by(sample_leq());
                let avg = (seq_sum(w) / n) as u64;
                let sq = if sq_dev_sum(w, avg) > u128::MAX {
                    u128::MAX as nat
                } else {
                    sq_dev_sum(w, avg)
                };
                let var = sq / n;
                &&& w.contains(r.min_ms) && forall|i: int| 0 <= i < n ==> r.min_ms <= #[trigger] w[i]
                &&& w.contains(r.max_ms) && forall|i: int| 0 <= i < n ==> #[trigger] w[i] <= r.max_ms
                &&& r.avg_ms == avg
                &&& r.std_dev_ms * r.std_dev_ms <= var < (r.std_dev_ms + 1) * (r.std_dev_ms + 1)
                &&& r.percentiles@.len() == 5
                &&& r.percentiles@[0].0@ == "p50"@ && r.percentiles@[0].1 == sorted[percentile_index(50, n)]
                &&& r.percentiles@[1].0@ == "p75"@ && r.percentiles@[1].1 == sorted[percentile_index(75, n)]
                &&& r.percentiles@[2].0@ == "p90"@ && r.percentiles@[2].1 == sorted[percentile_index(90, n)]
                &&& r.percentiles@[3].0@ == "p95"@ && r.percentiles@[3].1 == sorted[percentile_index(95, n)]
                &&& r.percentiles@[4].0@ == "p99"@ && r.percentiles@[4].1 == sorted[percentile_index(99, n)]
                &&& r.histogram@.len() == self.buckets().dom().len()
                &&& forall|i: int|
                    0 <= i < r.histogram@.len() ==> self.buckets().contains_key(#[trigger] r.histogram@[i].0)
                        && self.buckets()[r.histogram@[i].0] == r.histogram@[i].1
                &&& forall|b: u64|
                    #[trigger] self.buckets().contains_key(b) ==> r.histogram@.contains((b, self.buckets()[b]))
            },
    {
        if self.samples.len() == 0 {
            return LatencyMetrics::default();
        }
        let ghost w = self.samples@;
        let n = self.samples.len();
        let avg = self.total_sum / (n as u64);
        let mut min = self.samples[0];
        let mut max = self.samples[0];
        let mut sq: u128 = 0;
        let mut i: usize = 0;
        while i < n
            invariant
                n == w.len(),
                w == self.samples@,
                n > 0,
                i <= n,
                w.contains(min),
                w.contains(max),
                i > 0 ==> forall|j: int| 0 <= j < i ==> min <= #[trigger] w[j] && w[j] <= max,
                i == 0 ==> min == w[0] && max == w[0],
                sq == if sq_dev_sum(w.take(i as int), avg) > u128::MAX {
                    u128::MAX as nat
                } else {
                    sq_dev_sum(w.take(i as int), avg)
                },
            decreases n - i,
        {
            let x = self.samples[i];
            if x < min {
                min = x;
            }
            if x > max {
                max = x;
            }
            let d: u128 = if x >= avg { (x - avg) as u128 } else { (avg - x) as u128 };
            assert(d * d <= 0xffff_ffff_ffff_ffff_u128 * 0xffff_ffff_ffff_ffff_u128) by (nonlinear_arith)
                requires
                    d <= 0xffff_ffff_ffff_ffff_u128,
            ;
            let term: u128 = d * d;
            assert(w.take(i + 1).drop_last() =~= w.take(i as int));
            proof {
                let di: int = w[i as int] - avg;
                assert(term == di * di) by (nonlinear_arith)
                    requires
                        d == (if di >= 0 { di } else { -di }),
                        term == d * d,
                ;
            }
            sq = sq.saturating_add(term);
            i = i + 1;
        }
        assert(w.take(n as int) =~= w);
        let var = sq / (n as u128);
        let std_dev = isqrt(var);
        let window = window_vec(&self.samples);
        let sorted = sort_samples(&window);
        let mut percentiles: Vec<(String, u64)> = Vec::new();
        percentiles.push((String::from_str("p50"), sorted[percentile_at(50, n)]));
        percentiles.push((String::from_str("p75"), sorted[percentile_at(75, n)]));
        percentiles.push((String::from_str("p90"), sorted[percentile_at(90, n)]));
        percentiles.push((String::from_str("p95"), sorted[percentile_at(95, n)]));
        percentiles.push((String::from_str("p99"), sorted[percentile_at(99, n)]));
        let histogram = histogram_pairs(&self.histogram);
        LatencyMetrics { min_ms: min, max_ms: max, avg_ms: avg, std_dev_ms: std_dev, percentiles, histogram }
    }
}

fn percentile_at(p: u64, n: usize) -> (r: usize)
    requires
        p <= 100,
        n > 0,
    ensures
        r == percentile_index(p, n as nat),
        r < n,
{
    let m: u128 = (n - 1) as u128;
    let pp: u128 = p as u128;
    assert(pp * m <= 100 * m) by (nonlinear_arith)
        requires
            pp <= 100,
    ;
    let prod: u128 = pp * m;
    let idx = prod / 100;
    assert(idx <= m) by (nonlinear_arith)
        requires
            idx == prod / 100,
            prod <= 100 * m,
    ;
    idx as usize
}

fn window_vec(d: &VecDeque<u64>) -> (r: Vec<u64>)
    ensures
        r@ == d@,
{
    let mut out: Vec<u64> = Vec::new();
    let mut i: usize = 0;
    while i < d.len()
        invariant
            i <= d@.len(),
            out@ == d@.take(i as int),
        decreases d@.len() - i,
    {
        out.push(d[i]);
        i = i + 1;
        assert(out@ =~= d@.take(i as int));
    }
    assert(d@.take(d@.len() as int) =~= d@);
    out
}

/// The entries of a histogram, each once, in the order the map gives them.
fn histogram_pairs(h: &HashMap<u64, u64>) -> (r: Vec<(u64, u64)>)
    ensures
        r@.len() == h@.dom().len(),
        forall|i: int|
            0 <= i < r@.len() ==> h@.contains_key(#[trigger] r@[i].0) && h@[r@[i].0] == r@[i].1,
        forall|b: u64| #[trigger] h@.contains_key(b) ==> r@.contains((b, h@[b])),
{
    let ghost rem = vstd::std_specs::hash::spec_hash_map_iter(h).remaining();
    let mut out: Vec<(u64, u64)> = Vec::new();
    for kv in it: h.iter()
        invariant
            rem == vstd::std_specs::hash::spec_hash_map_iter(h).remaining(),
            out@.len() == it.index(),
            forall|i: int| 0 <= i < it.index() ==> out@[i] == (*it.seq()[i].0, *it.seq()[i].1),
            forall|i: int| 0 <= i < it.index() ==> out@[i] == (*rem[i].0, *rem[i].1),
    {
        out.push((*kv.0, *kv.1));
    }
    proof {
        assert forall|b: u64| #[trigger] h@.contains_key(b) implies out@.contains((b, h@[b])) by {
            assert(rem.contains((&b, &h@[b])));
            let j = choose|j: int| 0 <= j < rem.len() && rem[j] == (&b, &h@[b]);
            assert(out@[j] == (b, h@[b]));
        }
    }
    out
}

/// Largest `r` with `r * r <= v`.
pub fn isqrt(v: u128) -> (r: u64)
    ensures
        r * r <= v < (r + 1) * (r + 1),
{
    let mut lo: u128 = 0;
    let mut hi: u128 = 0x1_0000_0000_0000_0000;
    assert(hi * hi > u128::MAX) by (nonlinear_arith)
        requires
            hi == 0x1_0000_0000_0000_0000_u128,
    ;
    while hi - lo > 1
        invariant
            lo < hi <= 0x1_0000_0000_0000_0000_u128,
            lo * lo <= v,
            v < hi * hi,
        decreases hi - lo,
    {
        let mid = lo + (hi - lo) / 2;
        assert(lo < mid < hi);
        assert(mid * mid < 0x1_0000_0000_0000_0000_u128 * 0x1_0000_0000_0000_0000_u128) by (
        nonlinear_arith)
            requires
                mid < 0x1_0000_0000_0000_0000_u128,
        ;
        if mid * mid <= v {
            lo = mid;
        } else {
            hi = mid;
        }
    }
    assert(hi == lo + 1);
    lo as u64
}

/// The samples in ascending order.
pub fn sort_samples(v: &Vec<u64>) -> (r: Vec<u64>)
    ensures
        r@ == v@.sort_by(sample_leq()),
        r@.len() == v@.len(),
{
    let mut out: Vec<u64> = Vec::new();
    let mut i: usize = 0;
    while i < v.len()
        invariant
            i <= v@.len(),
            sorted_by(out@, sample_leq()),
            out@.to_multiset() == v@.take(i as int).to_multiset(),
        decreases v@.len() - i,
    {
        let x = v[i];
        let mut pos: usize = 0;
        while pos < out.len() && out[pos] <= x
            invariant
                pos <= out@.len(),
                forall|j: int| 0 <= j < pos ==> out@[j] <= x,
            decreases out@.len() - pos,
        {
            pos = pos + 1;
        }
        let ghost before = out@;
        out.insert(pos, x);
        proof {
            assert(out@ == before.insert(pos as int, x));
            assert forall|a: int, b: int| 0 <= a < b < out@.len() implies #[trigger] sample_leq()(
                out@[a],
                out@[b],
            ) by {
                if b < pos {
                    assert(sample_leq()(before[a], before[b]));
                } else if b == pos {
                    assert(before[a] <= x);
                } else if a < pos {
                    assert(before[a] <= x);
                    assert(pos < before.len() ==> x < before[pos as int]);
                    assert(sample_leq()(before[pos as int], before[b - 1]) || b - 1 == pos);
                } else if a == pos {
                    assert(x < before[pos as int]);
                    if b - 1 > pos {
                        assert(sample_leq()(before[pos as int], before[b - 1]));
                    }
                } else {
                    assert(sample_leq()(before[a - 1], before[b - 1]));
                }
            }
            assert(v@.take(i + 1) =~= v@.take(i as int).push(x));
        }
        i = i + 1;
    }
    proof {
        assert(v@.take(v@.len() as int) =~= v@);
        assert(total_ordering(sample_leq()));
        v@.lemma_sort_by_ensures(sample_leq());
        vstd::seq_lib::lemma_sorted_unique(out@, v@.sort_by(sample_leq()), sample_leq());
        assert(out@.to_multiset().len() == v@.to_multiset().len());
    }
    out
}

/// Score of a report out of 100: 20 off for a 99th percentile above one
/// second, else 10 off for a 95th percentile above half a second; 15 off
/// for low throughput; 10 off for high CPU; 10 off for more than 4096 MB
/// of memory.
pub open spec fn performance_score_spec(
    p99_ms: u64,
    p95_ms: u64,
    low_throughput: bool,
    high_cpu: bool,
    memory_mb: u64,
) -> int {
    100 - (if p99_ms > 1000 {
        20int
    } else if p95_ms > 500 {
        10int
    } else {
        0int
    }) - (if low_throughput {
        15int
    } else {
        0int
    }) - (if high_cpu {
        10int
    } else {
        0int
    }) - (if memory_mb > 4096 {
        10int
    } else {
        0int
    })
}

/// The performance score of a report (see `performance_score_spec`); the
/// throughput and CPU comparisons are handed in as flags.
pub fn performance_score(
    p99_ms: u64,
    p95_ms: u64,
    low_throughput: bool,
    high_cpu: bool,
    memory_mb: u64,
) -> (r: u8)
    ensures
        r == performance_score_spec(p99_ms, p95_ms, low_throughput, high_cpu, memory_mb),
{
    let mut score: u8 = 100;
    if p99_ms > 1000 {
        score = score - 20;
    } else if p95_ms > 500 {
        score = score - 10;
    }
    if low_throughput {
        score = score - 15;
    }
    if high_cpu {
        score = score - 10;
    }
    if memory_mb > 4096 {
        score = score - 10;
    }
    score
}

/// The deductions of the performance score, each on its own: a clean report
/// scores 100; a 99th percentile above one second takes 20 off whatever the
/// 95th percentile is; otherwise a 95th percentile above half a second
/// takes 10 off, and neither takes nothing; low throughput takes 15 off,
/// high CPU 10, and more than 4096 MB of memory 10, each whatever else
/// holds.
pub proof fn law_performance_score_deductions(
    p99_ms: u64,
    p95_ms: u64,
    low_throughput: bool,
    high_cpu: bool,
    memory_mb: u64,
)
    ensures
        performance_score_spec(0, 0, false, false, 0) == 100,
        p99_ms > 1000 ==> performance_score_spec(p99_ms, p95_ms, low_throughput, high_cpu, memory_mb)
            == performance_score_spec(0, 0, low_throughput, high_cpu, memory_mb) - 20,
        p99_ms <= 1000 && p95_ms > 500 ==> performance_score_spec(
            p99_ms,
            p95_ms,
            low_throughput,
            high_cpu,
            memory_mb,
        ) == performance_score_spec(0, 0, low_throughput, high_cpu, memory_mb) - 10,
        p99_ms <= 1000 && p95_ms <= 500 ==> performance_score_spec(
            p99_ms,
            p95_ms,
            low_throughput,
            high_cpu,
            memory_mb,
        ) == performance_score_spec(0, 0, low_throughput, high_cpu, memory_mb),
        performance_score_spec(p99_ms, p95_ms, true, high_cpu, memory_mb) == performance_score_spec(
            p99_ms,
            p95_ms,
            false,
            high_cpu,
            memory_mb,
        ) - 15,
        performance_score_spec(p99_ms, p95_ms, low_throughput, true, memory_mb)
            == performance_score_spec(p99_ms, p95_ms, low_throughput, false, memory_mb) - 10,
        memory_mb > 4096 ==> performance_score_spec(p99_ms, p95_ms, low_throughput, high_cpu, memory_mb)
            == performance_score_spec(p99_ms, p95_ms, low_throughput, high_cpu, 0) - 10,
        memory_mb <= 4096 ==> performance_score_spec(p99_ms, p95_ms, low_throughput, high_cpu, memory_mb)
            == performance_score_spec(p99_ms, p95_ms, low_throughput, high_cpu, 0),
        45 <= performance_score_spec(p99_ms, p95_ms, low_throughput, high_cpu, memory_mb) <= 100,
{
}

/// Recommendations of a report, in order: slow 99th percentile, degraded
/// throughput, high CPU.
pub fn recommendations(p99_ms: u64, throughput_degraded: bool, high_cpu: bool) -> (r: Vec<String>)
    ensures
        r@.map_values(|s: String| s@) == (if p99_ms > 1000 {
            seq!["High P99 latency detected - consider optimizing slow operations"@]
        } else {
            Seq::<Seq<char>>::empty()
        }) + (if throughput_degraded {
            seq!["Throughput degradation detected - investigate bottlenecks"@]
        } else {
            Seq::<Seq<char>>::empty()
        }) + (if high_cpu {
            seq!["High CPU usage - consider scaling horizontally"@]
        } else {
            Seq::<Seq<char>>::empty()
        }),
{
    let mut out: Vec<String> = Vec::new();
    if p99_ms > 1000 {
        out.push(String::from_str("High P99 latency detected - consider optimizing slow operations"));
    }
    if throughput_degraded {
        out.push(String::from_str("Throughput degradation detected - investigate bottlenecks"));
    }
    if high_cpu {
        out.push(String::from_str("High CPU usage - consider scaling horizontally"));
    }
    proof {
        let a: Seq<Seq<char>> = if p99_ms > 1000 {
            seq!["High P99 latency detected - consider optimizing slow operations"@]
        } else {
            Seq::<Seq<char>>::empty()
        };
        let b: Seq<Seq<char>> = if throughput_degraded {
            seq!["Throughput degradation detected - investigate bottlenecks"@]
        } else {
            Seq::<Seq<char>>::empty()
        };
        let c: Seq<Seq<char>> = if high_cpu {
            seq!["High CPU usage - consider scaling horizontally"@]
        } else {
            Seq::<Seq<char>>::empty()
        };
        assert(out@.map_values(|s: String| s@) =~= a + b + c);
    }
    out
}

} // verus!
