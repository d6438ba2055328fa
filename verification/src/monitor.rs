//! The performance monitor's counters: operations and bytes in all, and
//! per component the operations, errors, average latency and last use.
//! Latency percentiles are the latency tracker's.

use vstd::prelude::*;
use std::collections::VecDeque;
use crate::table::{lemma_tmap_index, table_find, table_push, table_set_at, tmap, unique_keys};

verus! {

/// One component's counters.
#[derive(PartialEq, Eq, Structural, Clone, Copy, Debug)]
pub struct ComponentCounters {
    pub operations: u64,
    /// Running average over all its operations, rounded down at each step.
    pub avg_latency_ms: u64,
    pub errors: u64,
    /// When it was last used (seconds since the epoch).
    pub last_operation_secs: u64,
}

/// Counters of a component never seen.
pub open spec fn fresh_component() -> ComponentCounters {
    ComponentCounters { operations: 0, avg_latency_ms: 0, errors: 0, last_operation_secs: 0 }
}

/// Whether recording one more operation keeps every counter of `c` in range.
pub open spec fn component_can_record(c: ComponentCounters, latency_ms: u64) -> bool {
    &&& c.operations < u64::MAX
    &&& c.avg_latency_ms * c.operations + latency_ms <= u64::MAX
}

/// A component's counters after one more operation.
pub open spec fn component_after(
    c: ComponentCounters,
    latency_ms: u64,
    success: bool,
    now_secs: u64,
) -> ComponentCounters {
    let ops = c.operations + 1;
    ComponentCounters {
        operations: ops as u64,
        errors: (if success {
            c.errors as int
        } else {
            c.errors + 1
        }) as u64,
        avg_latency_ms: (if ops == 1 {
            latency_ms as int
        } else {
            (c.avg_latency_ms * (ops - 1) + latency_ms) / ops
        }) as u64,
        last_operation_secs: now_secs,
    }
}

/// Recording an operation of a component counts one more operation, one
/// more error exactly when it failed, and stamps its time; errors still do
/// not outnumber operations, so the success rate (`success_rate_bp`) is
/// taken over the new counts. (`MonitorCounters::record_operation` applies
/// this to its component and leaves every other component as it was.)
pub proof fn law_component_counts(c: ComponentCounters, latency_ms: u64, success: bool, now_secs: u64)
    requires
        component_ok(c),
        component_can_record(c, latency_ms),
    ensures
        component_after(c, latency_ms, success, now_secs).operations == c.operations + 1,
        component_after(c, latency_ms, success, now_secs).errors == c.errors + if success {
            0int
        } else {
            1int
        },
        component_after(c, latency_ms, success, now_secs).last_operation_secs == now_secs,
        component_ok(component_after(c, latency_ms, success, now_secs)),
{
}

/// The average latency is the running mean: the first operation's latency
/// is the average, and after each later one the average times the new
/// operation count is the old total (old average times old count) plus
/// the new latency, rounded down to a multiple of the count.
pub proof fn law_component_average_is_running_mean(
    c: ComponentCounters,
    latency_ms: u64,
    success: bool,
    now_secs: u64,
)
    requires
        component_can_record(c, latency_ms),
    ensures
        c.operations == 0 ==> component_after(c, latency_ms, success, now_secs).avg_latency_ms
            == latency_ms,
        c.operations >= 1 ==> ({
            let a = component_after(c, latency_ms, success, now_secs).avg_latency_ms;
            let total = c.avg_latency_ms * c.operations + latency_ms;
            &&& a * (c.operations + 1) <= total
            &&& total < (a + 1) * (c.operations + 1)
        }),
{
    if c.operations >= 1 {
        let ops: int = c.operations + 1;
        let total: int = c.avg_latency_ms * c.operations + latency_ms;
        assert(total <= u64::MAX);
        assert(total / ops <= total) by (nonlinear_arith)
            requires
                ops >= 2,
                total >= 0,
        ;
        let a = component_after(c, latency_ms, success, now_secs).avg_latency_ms;
        assert(a == total / ops);
        assert(a * ops <= total && total < (a + 1) * ops) by (nonlinear_arith)
            requires
                a == total / ops,
                ops >= 2,
                total >= 0,
        ;
    }
}

/// Errors never outnumber operations.
pub open spec fn component_ok(c: ComponentCounters) -> bool {
    c.errors <= c.operations
}

/// The monitor's counters.
#[derive(Debug)]
pub struct MonitorCounters {
    /// A disabled monitor records nothing.
    pub enabled: bool,
    pub total_operations: u64,
    pub total_bytes_processed: u64,
    pub memory_usage_mb: u64,
    /// Counters per component, one entry per name.
    pub components: Vec<(String, ComponentCounters)>,
}

impl MonitorCounters {
    /// Counters per component name.
    pub open spec fn components(&self) -> Map<Seq<char>, ComponentCounters> {
        tmap(self.components@)
    }

    /// Component names are distinct, and no component has more errors than
    /// operations.
    pub open spec fn well_formed(&self) -> bool {
        &&& unique_keys(self.components@)
        &&& forall|k: Seq<char>| #[trigger]
            self.components().contains_key(k) ==> component_ok(self.components()[k])
    }

    /// The counters `component` has now (fresh ones if never seen).
    pub open spec fn counters_of(&self, component: Seq<char>) -> ComponentCounters {
        if self.components().contains_key(component) {
            self.components()[component]
        } else {
            fresh_component()
        }
    }

    /// Whether recording an operation of `component` keeps every counter in
    /// range.
    pub open spec fn can_record(&self, component: Seq<char>, latency_ms: u64, bytes: Option<u64>) -> bool {
        &&& self.total_operations < u64::MAX
        &&& (match bytes {
            Some(b) => self.total_bytes_processed + b <= u64::MAX,
            None => true,
        })
        &&& component_can_record(self.counters_of(component), latency_ms)
    }

    /// Zeroed counters.
    pub fn new(enabled: bool) -> (r: MonitorCounters)
        ensures
            r.well_formed(),
            r.enabled == enabled,
            r.total_operations == 0,
            r.total_bytes_processed == 0,
            r.memory_usage_mb == 0,
            r.components() == Map::<Seq<char>, ComponentCounters>::empty(),
    {
        let r = MonitorCounters {
            enabled,
            total_operations: 0,
            total_bytes_processed: 0,
            memory_usage_mb: 0,
            components: Vec::new(),
        };
        assert(r.components() =~= Map::<Seq<char>, ComponentCounters>::empty());
        r
    }

    /// Record one operation of `component` that took `latency_ms`, moved
    /// `bytes` (when known) and succeeded or not, at `now_secs`. A
    /// disabled monitor changes nothing.
    pub fn record_operation(
        &mut self,
        component: &str,
        latency_ms: u64,
        bytes: Option<u64>,
        success: bool,
        now_secs: u64,
    )
        requires
            old(self).well_formed(),
            old(self).enabled ==> old(self).can_record(component@, latency_ms, bytes),
        ensures
            final(self).well_formed(),
            final(self).enabled == old(self).enabled,
            final(self).memory_usage_mb == old(self).memory_usage_mb,
            !old(self).enabled ==> final(self).total_operations == old(self).total_operations
                && final(self).total_bytes_processed == old(self).total_bytes_processed
                && final(self).components() == old(self).components(),
            old(self).enabled ==> final(self).total_operations == old(self).total_operations + 1
                && final(self).total_bytes_processed == old(self).total_bytes_processed + (
            match bytes {
                Some(b) => b as int,
                None => 0,
            }) && final(self).components() == old(self).components().insert(
                component@,
                component_after(old(self).counters_of(component@), latency_ms, success, now_secs),
            ),
    {
        if !self.enabled {
            return;
        }
        self.total_operations = self.total_operations + 1;
        match bytes {
            Some(b) => {
                self.total_bytes_processed = self.total_bytes_processed + b;
            },
            None => {},
        }
        let ghost before = self.components();
        match table_find(&self.components, component) {
            Some(i) => {
                proof {
                    lemma_tmap_index(self.components@, i as int);
                }
                let c = self.components[i].1;
                let next = step_component(c, latency_ms, success, now_secs);
                table_set_at(&mut self.components, i, next);
            },
            None => {
                let next = step_component(
                    ComponentCounters {
                        operations: 0,
                        avg_latency_ms: 0,
                        errors: 0,
                        last_operation_secs: 0,
                    },
                    latency_ms,
                    success,
                    now_secs,
                );
                table_push(&mut self.components, component, next);
            },
        }
        proof {
            assert forall|k: Seq<char>| #[trigger]
                self.components().contains_key(k) implies component_ok(self.components()[k]) by {
                if k != component@ {
                    assert(before.contains_key(k));
                }
            }
        }
    }

    /// Record the memory in use.
    pub fn record_memory(&mut self, memory_mb: u64)
        ensures
            final(self).memory_usage_mb == (if old(self).enabled {
                memory_mb
            } else {
                old(self).memory_usage_mb
            }),
            final(self).enabled == old(self).enabled,
            final(self).total_operations == old(self).total_operations,
            final(self).total_bytes_processed == old(self).total_bytes_processed,
            final(self).components() == old(self).components(),
            final(self).well_formed() == old(self).well_formed(),
    {
        if self.enabled {
            self.memory_usage_mb = memory_mb;
        }
    }

    /// The counters of `component`, when it has been used.
    pub fn component(&self, component: &str) -> (r: Option<ComponentCounters>)
        requires
            self.well_formed(),
        ensures
            match r {
                Some(c) => self.components().contains_key(component@) && c == self.components()[component@],
                None => !self.components().contains_key(component@),
            },
    {
        match table_find(&self.components, component) {
            Some(i) => {
                proof {
                    lemma_tmap_index(self.components@, i as int);
                }
                Some(self.components[i].1)
            },
            None => None,
        }
    }

    /// Back to zero; enabled or not as before.
    pub fn reset(&mut self)
        ensures
            final(self).well_formed(),
            final(self).enabled == old(self).enabled,
            final(self).total_operations == 0,
            final(self).total_bytes_processed == 0,
            final(self).memory_usage_mb == 0,
            final(self).components() == Map::<Seq<char>, ComponentCounters>::empty(),
    {
        *self = MonitorCounters::new(self.enabled);
    }
}

fn step_component(c: ComponentCounters, latency_ms: u64, success: bool, now_secs: u64) -> (r:
    ComponentCounters)
    requires
        component_can_record(c, latency_ms),
        component_ok(c),
    ensures
        r == component_after(c, latency_ms, success, now_secs),
        component_ok(r),
{
    let ops = c.operations + 1;
    let errors = if success {
        c.errors
    } else {
        c.errors + 1
    };
    let avg = if ops == 1 {
        latency_ms
    } else {
        (c.avg_latency_ms * c.operations + latency_ms) / ops
    };
    ComponentCounters { operations: ops, avg_latency_ms: avg, errors, last_operation_secs: now_secs }
}

/// A component's success rate in basis points (10000 = every operation
/// succeeded); 0 before any operation.
pub fn success_rate_bp(c: ComponentCounters) -> (r: u64)
    requires
        component_ok(c),
    ensures
        c.operations == 0 ==> r == 0,
        c.operations > 0 ==> r == ((c.operations - c.errors) * 10000) / (c.operations as int),
{
    if c.operations == 0 {
        0
    } else {
        let ok = (c.operations - c.errors) as u128;
        let n = c.operations as u128;
        assert((ok * 10000) / (n as int) <= 10000) by (nonlinear_arith)
            requires
                ok <= n,
                n > 0,
        ;
        ((ok * 10000u128) / n) as u64
    }
}

/// Recording into a component keeps its average within the range of the
/// latencies it averages: never above the larger of the old average and
/// the new latency.
pub proof fn law_average_bounded(c: ComponentCounters, latency_ms: u64, success: bool, now: u64)
    requires
        component_can_record(c, latency_ms),
    ensures
        ({
            let n = component_after(c, latency_ms, success, now);
            &&& n.operations == c.operations + 1
            &&& n.avg_latency_ms <= (if c.avg_latency_ms > latency_ms {
                c.avg_latency_ms
            } else {
                latency_ms
            })
        }),
{
    let ops = c.operations + 1;
    let m: int = if c.avg_latency_ms > latency_ms {
        c.avg_latency_ms as int
    } else {
        latency_ms as int
    };
    if ops > 1 {
        assert(c.avg_latency_ms * c.operations + latency_ms <= m * c.operations + m) by (nonlinear_arith)
            requires
                c.avg_latency_ms <= m,
                latency_ms <= m,
                c.operations >= 0,
        ;
        assert((c.avg_latency_ms * c.operations + latency_ms) / ops <= m) by (nonlinear_arith)
            requires
                c.avg_latency_ms * c.operations + latency_ms <= m * c.operations + m,
                ops == c.operations + 1,
                ops > 1,
                m >= 0,
        ;
    }
}

/// `s` without its leading entries older than `cutoff`.
pub open spec fn drop_older(s: Seq<u64>, cutoff: u64) -> Seq<u64>
    decreases s.len(),
{
    if s.len() > 0 && s[0] < cutoff {
        drop_older(s.drop_first(), cutoff)
    } else {
        s
    }
}

/// `s` without its leading records older than `cutoff`.
pub open spec fn drop_older_records(s: Seq<(u64, u64)>, cutoff: u64) -> Seq<(u64, u64)>
    decreases s.len(),
{
    if s.len() > 0 && s[0].0 < cutoff {
        drop_older_records(s.drop_first(), cutoff)
    } else {
        s
    }
}

/// Sum of the byte counts of records.
pub open spec fn bytes_sum(s: Seq<(u64, u64)>) -> nat
    decreases s.len(),
{
    if s.len() == 0 {
        0
    } else {
        bytes_sum(s.drop_last()) + s.last().1 as nat
    }
}

/// Operations and bytes over a sliding window of time (milliseconds), with
/// running totals. Rates are the window's counts over its length.
#[derive(Debug)]
pub struct ThroughputWindow {
    pub window_ms: u64,
    /// When each operation in the window happened, oldest first.
    pub op_times: VecDeque<u64>,
    /// When and how many bytes each operation in the window moved.
    pub byte_records: VecDeque<(u64, u64)>,
    pub total_ops: u64,
    pub total_bytes: u64,
}

impl ThroughputWindow {
    /// An empty window of `window_ms`.
    pub fn new(window_ms: u64) -> (r: ThroughputWindow)
        ensures
            r.window_ms == window_ms,
            r.op_times@ == Seq::<u64>::empty(),
            r.byte_records@ == Seq::<(u64, u64)>::empty(),
            r.total_ops == 0,
            r.total_bytes == 0,
    {
        ThroughputWindow {
            window_ms,
            op_times: VecDeque::new(),
            byte_records: VecDeque::new(),
            total_ops: 0,
            total_bytes: 0,
        }
    }

    /// Record an operation at `now_ms` that moved `bytes` (when known):
    /// first drop what fell out of the window (older than `now_ms` less the
    /// window), then add it.
    pub fn record_operation(&mut self, now_ms: u64, bytes: Option<u64>)
        requires
            now_ms >= old(self).window_ms,
            old(self).total_ops < u64::MAX,
            bytes matches Some(b) ==> old(self).total_bytes + b <= u64::MAX,
        ensures
            final(self).window_ms == old(self).window_ms,
            final(self).op_times@ == drop_older(
                old(self).op_times@,
                (now_ms - old(self).window_ms) as u64,
            ).push(now_ms),
            final(self).byte_records@ == (match bytes {
                Some(b) => drop_older_records(
                    old(self).byte_records@,
                    (now_ms - old(self).window_ms) as u64,
                ).push((now_ms, b)),
                None => drop_older_records(
                    old(self).byte_records@,
                    (now_ms - old(self).window_ms) as u64,
                ),
            }),
            final(self).total_ops == old(self).total_ops + 1,
            final(self).total_bytes == old(self).total_bytes + (match bytes {
                Some(b) => b as int,
                None => 0,
            }),
    {
        let cutoff = now_ms - self.window_ms;
        while self.op_times.len() > 0 && self.op_times[0] < cutoff
            invariant
                drop_older(self.op_times@, cutoff) == drop_older(old(self).op_times@, cutoff),
                self.window_ms == old(self).window_ms,
                self.byte_records@ == old(self).byte_records@,
                self.total_ops == old(self).total_ops,
                self.total_bytes == old(self).total_bytes,
            decreases self.op_times@.len(),
        {
            let ghost before = self.op_times@;
            self.op_times.pop_front();
            assert(self.op_times@ =~= before.drop_first());
        }
        while self.byte_records.len() > 0 && self.byte_records[0].0 < cutoff
            invariant
                drop_older_records(self.byte_records@, cutoff) == drop_older_records(
                    old(self).byte_records@,
                    cutoff,
                ),
                self.op_times@ == drop_older(old(self).op_times@, cutoff),
                self.window_ms == old(self).window_ms,
                self.total_ops == old(self).total_ops,
                self.total_bytes == old(self).total_bytes,
            decreases self.byte_records@.len(),
        {
            let ghost before = self.byte_records@;
            self.byte_records.pop_front();
            assert(self.byte_records@ =~= before.drop_first());
        }
        self.op_times.push_back(now_ms);
        self.total_ops = self.total_ops + 1;
        match bytes {
            Some(b) => {
                self.byte_records.push_back((now_ms, b));
                self.total_bytes = self.total_bytes + b;
            },
            None => {},
        }
    }

    /// Number of operations in the window.
    pub fn ops_in_window(&self) -> (r: usize)
        ensures
            r == self.op_times@.len(),
    {
        self.op_times.len()
    }

    /// Bytes moved by the operations in the window.
    pub fn bytes_in_window(&self) -> (r: u128)
        requires
            self.byte_records@.len() <= usize::MAX,
        ensures
            r == bytes_sum(self.byte_records@),
    {
        let mut sum: u128 = 0;
        let mut i: usize = 0;
        while i < self.byte_records.len()
            invariant
                i <= self.byte_records@.len(),
                sum == bytes_sum(self.byte_records@.take(i as int)),
                sum <= i * (u64::MAX as int),
            decreases self.byte_records@.len() - i,
        {
            assert(self.byte_records@.take(i + 1).drop_last() =~= self.byte_records@.take(i as int));
            assert(i * (u64::MAX as int) + (u64::MAX as int) <= u128::MAX) by (nonlinear_arith)
                requires
                    i < usize::MAX,
            ;
            assert((i + 1) * (u64::MAX as int) == i * (u64::MAX as int) + (u64::MAX as int)) by (nonlinear_arith);
            sum = sum + self.byte_records[i].1 as u128;
            i = i + 1;
        }
        assert(self.byte_records@.take(self.byte_records@.len() as int) =~= self.byte_records@);
        sum
    }
}

/// The last samples of a measure, at most `max` of them (at least one once
/// any was recorded), oldest first.
#[derive(Debug)]
pub struct SampleWindow {
    pub max: usize,
    pub samples: VecDeque<u64>,
}

/// Sum of samples.
pub open spec fn sample_sum(s: Seq<u64>) -> nat
    decreases s.len(),
{
    if s.len() == 0 {
        0
    } else {
        sample_sum(s.drop_last()) + s.last() as nat
    }
}

impl SampleWindow {
    /// No samples yet.
    pub fn new(max: usize) -> (r: SampleWindow)
        ensures
            r.max == max,
            r.samples@ == Seq::<u64>::empty(),
    {
        SampleWindow { max, samples: VecDeque::new() }
    }

    /// Add a sample, dropping the oldest when the window is full.
    pub fn record(&mut self, v: u64)
        ensures
            final(self).max == old(self).max,
            final(self).samples@ == (if old(self).samples@.len() >= old(self).max
                && old(self).samples@.len() > 0 {
                old(self).samples@.drop_first().push(v)
            } else {
                old(self).samples@.push(v)
            }),
    {
        if self.samples.len() >= self.max && self.samples.len() > 0 {
            let ghost before = self.samples@;
            self.samples.pop_front();
            assert(self.samples@ =~= before.drop_first());
        }
        self.samples.push_back(v);
    }

    /// Average of the samples, rounded down; 0 without samples.
    pub fn average(&self) -> (r: u64)
        ensures
            self.samples@.len() == 0 ==> r == 0,
            self.samples@.len() > 0 ==> r == sample_sum(self.samples@) / self.samples@.len(),
    {
        let n = self.samples.len();
        if n == 0 {
            return 0;
        }
        let mut sum: u128 = 0;
        let mut i: usize = 0;
        while i < n
            invariant
                n == self.samples@.len(),
                i <= n,
                sum == sample_sum(self.samples@.take(i as int)),
                sum <= i * (u64::MAX as int),
            decreases n - i,
        {
            assert(self.samples@.take(i + 1).drop_last() =~= self.samples@.take(i as int));
            assert(i * (u64::MAX as int) + (u64::MAX as int) <= u128::MAX) by (nonlinear_arith)
                requires
                    i < usize::MAX,
            ;
            assert((i + 1) * (u64::MAX as int) == i * (u64::MAX as int) + (u64::MAX as int)) by (nonlinear_arith);
            sum = sum + self.samples[i] as u128;
            i = i + 1;
        }
        assert(self.samples@.take(n as int) =~= self.samples@);
        assert((sum as int) / (n as int) <= u64::MAX) by (nonlinear_arith)
            requires
                sum <= n * (u64::MAX as int),
                n > 0,
        ;
        (sum / (n as u128)) as u64
    }
}

/// Times in ascending order.
pub open spec fn ascending(s: Seq<u64>) -> bool {
    forall|i: int, j: int| 0 <= i <= j < s.len() ==> s[i] <= s[j]
}

proof fn lemma_drop_older(s: Seq<u64>, cutoff: u64)
    requires
        ascending(s),
    ensures
        ascending(drop_older(s, cutoff)),
        forall|i: int| 0 <= i < drop_older(s, cutoff).len() ==> #[trigger] drop_older(s, cutoff)[i] >= cutoff,
        forall|i: int|
            0 <= i < drop_older(s, cutoff).len() ==> exists|j: int|
                0 <= j < s.len() && s[j] == #[trigger] drop_older(s, cutoff)[i],
    decreases s.len(),
{
    if s.len() > 0 && s[0] < cutoff {
        let t = s.drop_first();
        assert forall|i: int, j: int| 0 <= i <= j < t.len() implies t[i] <= t[j] by {
            assert(t[i] == s[i + 1] && t[j] == s[j + 1]);
        }
        lemma_drop_older(t, cutoff);
        let d = drop_older(s, cutoff);
        assert forall|i: int| 0 <= i < d.len() implies exists|j: int|
            0 <= j < s.len() && s[j] == #[trigger] d[i] by {
            let j = choose|j: int| 0 <= j < t.len() && t[j] == d[i];
            assert(s[j + 1] == d[i]);
        }
    } else if s.len() > 0 {
        assert forall|i: int| 0 <= i < s.len() implies #[trigger] s[i] >= cutoff by {
            assert(s[0] <= s[i]);
        }
        assert forall|i: int| 0 <= i < s.len() implies exists|j: int|
            0 <= j < s.len() && s[j] == #[trigger] s[i] by {
        }
    }
}

/// With operations recorded in time order, the window after recording at
/// `now` is still in time order, holds nothing older than the cutoff, and
/// ends with the new operation.
pub proof fn law_window_keeps_recent(times: Seq<u64>, cutoff: u64, now: u64)
    requires
        ascending(times),
        forall|i: int| 0 <= i < times.len() ==> #[trigger] times[i] <= now,
        cutoff <= now,
    ensures
        ({
            let w = drop_older(times, cutoff).push(now);
            &&& ascending(w)
            &&& forall|i: int| 0 <= i < w.len() ==> #[trigger] w[i] >= cutoff
            &&& w.last() == now
        }),
{
    lemma_drop_older(times, cutoff);
    let d = drop_older(times, cutoff);
    let w = d.push(now);
    assert forall|i: int, j: int| 0 <= i <= j < w.len() implies w[i] <= w[j] by {
        if j == w.len() - 1 {
            if i < d.len() {
                let k = choose|k: int| 0 <= k < times.len() && times[k] == d[i];
                assert(times[k] <= now);
            }
        } else {
            assert(w[i] == d[i] && w[j] == d[j]);
        }
    }
    assert forall|i: int| 0 <= i < w.len() implies #[trigger] w[i] >= cutoff by {
        if i < d.len() {
            assert(w[i] == d[i]);
        }
    }
}

} // verus!
