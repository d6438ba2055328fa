//! Workflow bookkeeping: run metrics, the staged processing workflow with
//! its retry rule, and the retrieval cache.
//!
//! The waiting, timing and calling of processors are the caller's: the
//! functions here take the time (in milliseconds) and the outcome of each
//! attempt as plain values and decide what happens next.

use vstd::prelude::*;
use crate::table::{
    tmap, unique_keys, table_find, table_set_at, table_push, table_remove_at, lemma_tmap_index,
    lemma_tmap_dom,
};
use crate::text::{concat2, concat3, decimal, u64_to_decimal};
use crate::integration::next_average;

verus! {

/// Why a workflow step failed.
#[derive(Debug)]
pub enum WorkflowError {
    PipelineFailed(String),
    StorageFailed(String),
    NetworkFailed(String),
    PrivacyFailed(String),
    Timeout(String),
    ResourceExhausted(String),
    InvalidState(String),
    Workflow(String),
}

/// The text an error is shown with.
pub open spec fn workflow_error_text(e: WorkflowError) -> Seq<char> {
    match e {
        WorkflowError::PipelineFailed(s) => "Pipeline processing failed: "@ + s@,
        WorkflowError::StorageFailed(s) => "Storage operation failed: "@ + s@,
        WorkflowError::NetworkFailed(s) => "Network operation failed: "@ + s@,
        WorkflowError::PrivacyFailed(s) => "Privacy validation failed: "@ + s@,
        WorkflowError::Timeout(s) => "Timeout exceeded: "@ + s@,
        WorkflowError::ResourceExhausted(s) => "Resource exhausted: "@ + s@,
        WorkflowError::InvalidState(s) => "Invalid state: "@ + s@,
        WorkflowError::Workflow(s) => "Workflow error: "@ + s@,
    }
}

impl WorkflowError {
    /// The text this error is shown with.
    pub fn message(&self) -> (r: String)
        ensures
            r@ == workflow_error_text(*self),
    {
        match self {
            WorkflowError::PipelineFailed(s) => concat2("Pipeline processing failed: ", s.as_str()),
            WorkflowError::StorageFailed(s) => concat2("Storage operation failed: ", s.as_str()),
            WorkflowError::NetworkFailed(s) => concat2("Network operation failed: ", s.as_str()),
            WorkflowError::PrivacyFailed(s) => concat2("Privacy validation failed: ", s.as_str()),
            WorkflowError::Timeout(s) => concat2("Timeout exceeded: ", s.as_str()),
            WorkflowError::ResourceExhausted(s) => concat2("Resource exhausted: ", s.as_str()),
            WorkflowError::InvalidState(s) => concat2("Invalid state: ", s.as_str()),
            WorkflowError::Workflow(s) => concat2("Workflow error: ", s.as_str()),
        }
    }
}

/// Counters over workflow runs.
#[derive(Debug)]
pub struct WorkflowMetrics {
    pub total_executions: u64,
    pub successful_executions: u64,
    pub failed_executions: u64,
    pub avg_execution_time_ms: u64,
    pub min_execution_time_ms: u64,
    pub max_execution_time_ms: u64,
    pub stage_timings: Vec<(String, u64)>,
}

impl Default for WorkflowMetrics {
    fn default() -> (r: Self)
        ensures
            r.total_executions == 0,
            r.successful_executions == 0,
            r.failed_executions == 0,
            r.avg_execution_time_ms == 0,
            r.min_execution_time_ms == 0,
            r.max_execution_time_ms == 0,
            r.stage_timings@.len() == 0,
    {
        WorkflowMetrics {
            total_executions: 0,
            successful_executions: 0,
            failed_executions: 0,
            avg_execution_time_ms: 0,
            min_execution_time_ms: 0,
            max_execution_time_ms: 0,
            stage_timings: Vec::new(),
        }
    }
}

impl WorkflowMetrics {
    /// Record one run that took `time_ms`: the run counters grow, the
    /// minimum (where 0 means "none yet") and maximum follow the sample, and
    /// the average becomes the running average.
    pub fn update(&mut self, time_ms: u64, success: bool)
        requires
            old(self).total_executions < u64::MAX,
            success ==> old(self).successful_executions < u64::MAX,
            !success ==> old(self).failed_executions < u64::MAX,
            old(self).avg_execution_time_ms * old(self).total_executions + time_ms <= u64::MAX,
        ensures
            final(self).total_executions == old(self).total_executions + 1,
            final(self).successful_executions == old(self).successful_executions + if success {
                1int
            } else {
                0int
            },
            final(self).failed_executions == old(self).failed_executions + if success {
                0int
            } else {
                1int
            },
            final(self).min_execution_time_ms == if old(self).min_execution_time_ms == 0 || time_ms
                < old(self).min_execution_time_ms {
                time_ms
            } else {
                old(self).min_execution_time_ms
            },
            final(self).max_execution_time_ms == if time_ms > old(self).max_execution_time_ms {
                time_ms
            } else {
                old(self).max_execution_time_ms
            },
            final(self).avg_execution_time_ms == next_average(
                old(self).avg_execution_time_ms,
                old(self).total_executions,
                time_ms,
            ),
            final(self).stage_timings@ == old(self).stage_timings@,
    {
        let prev = self.total_executions;
        self.total_executions = prev + 1;
        if success {
            self.successful_executions = self.successful_executions + 1;
        } else {
            self.failed_executions = self.failed_executions + 1;
        }
        if self.min_execution_time_ms == 0 || time_ms < self.min_execution_time_ms {
            self.min_execution_time_ms = time_ms;
        }
        if time_ms > self.max_execution_time_ms {
            self.max_execution_time_ms = time_ms;
        }
        if prev == 0 {
            self.avg_execution_time_ms = time_ms;
        } else {
            self.avg_execution_time_ms = (self.avg_execution_time_ms * prev + time_ms) / (prev + 1);
        }
    }
}

/// One stage of the processing workflow.
#[derive(Debug)]
pub struct ProcessingStage {
    pub name: String,
    pub timeout_secs: u64,
    pub retry_count: usize,
    pub retry_delay_ms: u64,
}

/// Counters over the runs of one stage.
#[derive(PartialEq, Eq, Structural, Clone, Copy, Debug)]
pub struct StageMetrics {
    pub executions: u64,
    pub successes: u64,
    pub failures: u64,
    pub avg_duration_ms: u64,
    pub total_retries: u64,
}

/// Metrics of a stage that has not run yet.
pub open spec fn fresh_stage_metrics() -> StageMetrics {
    StageMetrics { executions: 0, successes: 0, failures: 0, avg_duration_ms: 0, total_retries: 0 }
}

/// Whether `m` can take one more run of `duration_ms` with `retries`
/// retries without a counter overflowing.
pub open spec fn stage_record_fits(m: StageMetrics, duration_ms: u64, retries: usize) -> bool {
    &&& m.executions < u64::MAX
    &&& m.successes < u64::MAX
    &&& m.failures < u64::MAX
    &&& m.total_retries + retries <= u64::MAX
    &&& m.avg_duration_ms * m.executions + duration_ms <= u64::MAX
}

/// `m` after one more run.
pub open spec fn stage_recorded(m: StageMetrics, duration_ms: u64, success: bool, retries: usize) -> StageMetrics {
    StageMetrics {
        executions: (m.executions + 1) as u64,
        successes: if success { (m.successes + 1) as u64 } else { m.successes },
        failures: if success { m.failures } else { (m.failures + 1) as u64 },
        avg_duration_ms: next_average(m.avg_duration_ms, m.executions, duration_ms) as u64,
        total_retries: (m.total_retries + retries) as u64,
    }
}

impl StageMetrics {
    /// Record one run of the stage.
    pub fn record(&mut self, duration_ms: u64, success: bool, retries: usize)
        requires
            stage_record_fits(*old(self), duration_ms, retries),
        ensures
            *final(self) == stage_recorded(*old(self), duration_ms, success, retries),
    {
        let prev = self.executions;
        self.executions = prev + 1;
        if success {
            self.successes = self.successes + 1;
        } else {
            self.failures = self.failures + 1;
        }
        self.total_retries = self.total_retries + retries as u64;
        if prev == 0 {
            self.avg_duration_ms = duration_ms;
        } else {
            assert(self.avg_duration_ms * prev + duration_ms <= u64::MAX);
            self.avg_duration_ms = (self.avg_duration_ms * prev + duration_ms) / (prev + 1);
        }
    }
}

/// The outcome of one attempt at a stage.
pub enum AttemptOutcome {
    Succeeded,
    Failed(String),
    TimedOut,
}

/// What the workflow does after an attempt.
#[derive(Debug)]
pub enum StageStep {
    /// The stage succeeded after `retries` retries.
    Finished { retries: usize },
    /// Wait `delay_ms`, then make attempt number `retries + 1`.
    RetryAfter { delay_ms: u64, retries: usize },
    /// Every attempt failed; record `retries` retries and report `error`.
    GaveUp { retries: usize, error: WorkflowError },
}

/// Error reported when a stage's attempt ran out of time.
pub open spec fn timeout_text(name: Seq<char>, timeout_secs: u64) -> Seq<char> {
    "Stage "@ + name + " timeout after "@ + decimal(timeout_secs as nat) + "s"@
}

/// Error text view of a workflow error (variant and text).
pub open spec fn error_view(e: WorkflowError) -> (int, Seq<char>) {
    match e {
        WorkflowError::PipelineFailed(s) => (0, s@),
        WorkflowError::StorageFailed(s) => (1, s@),
        WorkflowError::NetworkFailed(s) => (2, s@),
        WorkflowError::PrivacyFailed(s) => (3, s@),
        WorkflowError::Timeout(s) => (4, s@),
        WorkflowError::ResourceExhausted(s) => (5, s@),
        WorkflowError::InvalidState(s) => (6, s@),
        WorkflowError::Workflow(s) => (7, s@),
    }
}

/// The retry rule: a success finishes the stage; a failure or a timeout is
/// retried after the stage's delay while at most `retry_count` retries have
/// been made, and otherwise ends the stage with the last attempt's error.
pub fn after_attempt(stage: &ProcessingStage, retries: usize, outcome: AttemptOutcome) -> (r: StageStep)
    requires
        retries <= stage.retry_count,
    ensures
        match outcome {
            AttemptOutcome::Succeeded => r == StageStep::Finished { retries },
            AttemptOutcome::Failed(e) => if retries + 1 <= stage.retry_count {
                r == StageStep::RetryAfter { delay_ms: stage.retry_delay_ms, retries: (retries + 1) as usize }
            } else {
                r matches StageStep::GaveUp { retries: n, error } && n == retries && error_view(error)
                    == (7int, e@)
            },
            AttemptOutcome::TimedOut => if retries + 1 <= stage.retry_count {
                r == StageStep::RetryAfter { delay_ms: stage.retry_delay_ms, retries: (retries + 1) as usize }
            } else {
                r matches StageStep::GaveUp { retries: n, error } && n == retries && error_view(error)
                    == (4int, timeout_text(stage.name@, stage.timeout_secs))
            },
        },
{
    let error = match outcome {
        AttemptOutcome::Succeeded => {
            return StageStep::Finished { retries };
        },
        AttemptOutcome::Failed(e) => WorkflowError::Workflow(e),
        AttemptOutcome::TimedOut => {
            let secs = u64_to_decimal(stage.timeout_secs);
            let head = concat3("Stage ", stage.name.as_str(), " timeout after ");
            let body = concat3(head.as_str(), secs.as_str(), "s");
            proof {
                reveal_strlit("Stage ");
                reveal_strlit(" timeout after ");
                reveal_strlit("s");
            }
            WorkflowError::Timeout(body)
        },
    };
    if retries < stage.retry_count {
        StageStep::RetryAfter { delay_ms: stage.retry_delay_ms, retries: retries + 1 }
    } else {
        StageStep::GaveUp { retries, error }
    }
}

fn stage(name: &str, timeout_secs: u64, retry_count: usize, retry_delay_ms: u64) -> (r: ProcessingStage)
    ensures
        r.name@ == name@,
        r.timeout_secs == timeout_secs,
        r.retry_count == retry_count,
        r.retry_delay_ms == retry_delay_ms,
{
    ProcessingStage { name: String::from_str(name), timeout_secs, retry_count, retry_delay_ms }
}

/// The staged processing workflow and its per-stage metrics.
pub struct ProcessingWorkflow {
    stages: Vec<ProcessingStage>,
    stage_metrics: Vec<(String, StageMetrics)>,
}

/// The unknown-stage error text.
pub open spec fn unknown_stage_text(name: Seq<char>) -> Seq<char> {
    "Unknown stage: "@ + name
}

impl ProcessingWorkflow {
    /// The stages, in order.
    pub closed spec fn stage_list(&self) -> Seq<ProcessingStage> {
        self.stages@
    }

    /// The stages, in order.
    pub fn stages(&self) -> (r: &Vec<ProcessingStage>)
        ensures
            r@ == self.stage_list(),
    {
        &self.stages
    }

    /// Per-stage metrics, by stage name.
    pub closed spec fn metrics_map(&self) -> Map<Seq<char>, StageMetrics> {
        tmap(self.stage_metrics@)
    }

    /// Stage metrics keys are distinct.
    pub closed spec fn well_formed(&self) -> bool {
        unique_keys(self.stage_metrics@)
    }

    /// The five stages: validation (5 s, 2 retries, 100 ms apart),
    /// compression, encryption and sharding (10 s, 1 retry, 500 ms), and
    /// distribution (15 s, 3 retries, 1000 ms); no metrics yet.
    pub fn new() -> (r: ProcessingWorkflow)
        ensures
            r.well_formed(),
            r.metrics_map() == Map::<Seq<char>, StageMetrics>::empty(),
            r.stage_list().len() == 5,
            r.stage_list()[0].name@ == "validation"@ && r.stage_list()[0].timeout_secs == 5
                && r.stage_list()[0].retry_count == 2 && r.stage_list()[0].retry_delay_ms == 100,
            r.stage_list()[1].name@ == "compression"@ && r.stage_list()[1].timeout_secs == 10
                && r.stage_list()[1].retry_count == 1 && r.stage_list()[1].retry_delay_ms == 500,
            r.stage_list()[2].name@ == "encryption"@ && r.stage_list()[2].timeout_secs == 10
                && r.stage_list()[2].retry_count == 1 && r.stage_list()[2].retry_delay_ms == 500,
            r.stage_list()[3].name@ == "sharding"@ && r.stage_list()[3].timeout_secs == 10
                && r.stage_list()[3].retry_count == 1 && r.stage_list()[3].retry_delay_ms == 500,
            r.stage_list()[4].name@ == "distribution"@ && r.stage_list()[4].timeout_secs == 15
                && r.stage_list()[4].retry_count == 3 && r.stage_list()[4].retry_delay_ms == 1000,
    {
        let mut stages: Vec<ProcessingStage> = Vec::new();
        stages.push(stage("validation", 5, 2, 100));
        stages.push(stage("compression", 10, 1, 500));
        stages.push(stage("encryption", 10, 1, 500));
        stages.push(stage("sharding", 10, 1, 500));
        stages.push(stage("distribution", 15, 3, 1000));
        let r = ProcessingWorkflow { stages, stage_metrics: Vec::new() };
        assert(r.stage_metrics@ =~= Seq::<(String, StageMetrics)>::empty());
        r
    }

    /// Index of the first stage called `name`, or `InvalidState` naming the
    /// unknown stage.
    pub fn find_stage(&self, name: &str) -> (r: Result<usize, WorkflowError>)
        ensures
            match r {
                Ok(i) => i < self.stage_list().len() && self.stage_list()[i as int].name@ == name@ && forall|
                    j: int,
                | 0 <= j < i ==> (#[trigger] self.stage_list()[j]).name@ != name@,
                Err(e) => (forall|j: int|
                    0 <= j < self.stage_list().len() ==> (#[trigger] self.stage_list()[j]).name@ != name@)
                    && error_view(e) == (6int, unknown_stage_text(name@)),
            },
    {
        let mut i: usize = 0;
        while i < self.stages.len()
            invariant
                i <= self.stage_list().len(),
                forall|j: int| 0 <= j < i ==> (#[trigger] self.stage_list()[j]).name@ != name@,
            decreases self.stage_list().len() - i,
        {
            if crate::text::str_eq(self.stages[i].name.as_str(), name) {
                return Ok(i);
            }
            i = i + 1;
        }
        proof {
            reveal_strlit("Unknown stage: ");
        }
        Err(WorkflowError::InvalidState(concat2("Unknown stage: ", name)))
    }

    /// Metrics of the stage called `name`.
    pub fn stage_metrics_of(&self, name: &str) -> (r: Option<StageMetrics>)
        requires
            self.well_formed(),
        ensures
            match r {
                Some(m) => self.metrics_map().contains_key(name@) && self.metrics_map()[name@]
                    == m,
                None => !self.metrics_map().contains_key(name@),
            },
    {
        match table_find(&self.stage_metrics, name) {
            Some(i) => {
                proof {
                    lemma_tmap_index(self.stage_metrics@, i as int);
                }
                Some(self.stage_metrics[i].1)
            },
            None => None,
        }
    }

    /// Record one run of the stage called `name` (starting from empty
    /// metrics for a stage not seen before).
    pub fn update_stage_metrics(&mut self, name: &str, duration_ms: u64, success: bool, retries: usize)
        requires
            old(self).well_formed(),
            stage_record_fits(
                if old(self).metrics_map().contains_key(name@) {
                    old(self).metrics_map()[name@]
                } else {
                    fresh_stage_metrics()
                },
                duration_ms,
                retries,
            ),
        ensures
            final(self).well_formed(),
            final(self).stage_list() == old(self).stage_list(),
            final(self).metrics_map() == old(self).metrics_map().insert(
                name@,
                stage_recorded(
                    if old(self).metrics_map().contains_key(name@) {
                        old(self).metrics_map()[name@]
                    } else {
                        fresh_stage_metrics()
                    },
                    duration_ms,
                    success,
                    retries,
                ),
            ),
    {
        match table_find(&self.stage_metrics, name) {
            Some(i) => {
                proof {
                    lemma_tmap_index(self.stage_metrics@, i as int);
                }
                let mut m = self.stage_metrics[i].1;
                m.record(duration_ms, success, retries);
                table_set_at(&mut self.stage_metrics, i, m);
            },
            None => {
                let mut m = StageMetrics {
                    executions: 0,
                    successes: 0,
                    failures: 0,
                    avg_duration_ms: 0,
                    total_retries: 0,
                };
                m.record(duration_ms, success, retries);
                table_push(&mut self.stage_metrics, name, m);
            },
        }
    }
}

/// One cached asset.
#[derive(Debug)]
pub struct CachedAsset {
    pub data: Vec<u8>,
    pub cached_at_ms: u64,
    pub access_count: u64,
}

/// Cache figures.
#[derive(PartialEq, Eq, Structural, Clone, Copy, Debug)]
pub struct CacheStats {
    pub entries: usize,
    pub total_size_bytes: usize,
    pub total_accesses: u64,
}

/// Cache of recently retrieved assets with a time to live and a size bound.
pub struct RetrievalWorkflow {
    cache: Vec<(String, CachedAsset)>,
    cache_ttl_ms: u64,
    max_cache_size: usize,
}

/// Index of the first entry with the smallest access count.
pub open spec fn is_lru_index(s: Seq<(String, CachedAsset)>, i: int) -> bool {
    &&& 0 <= i < s.len()
    &&& forall|j: int| 0 <= j < s.len() ==> s[i].1.access_count <= (#[trigger] s[j]).1.access_count
    &&& forall|j: int| 0 <= j < i ==> s[i].1.access_count < (#[trigger] s[j]).1.access_count
}

/// Sum of the data sizes of the entries.
pub open spec fn total_size(s: Seq<(String, CachedAsset)>) -> nat
    decreases s.len(),
{
    if s.len() == 0 {
        0
    } else {
        total_size(s.drop_last()) + s.last().1.data@.len()
    }
}

/// Sum of the access counts of the entries.
pub open spec fn total_accesses(s: Seq<(String, CachedAsset)>) -> nat
    decreases s.len(),
{
    if s.len() == 0 {
        0
    } else {
        total_accesses(s.drop_last()) + s.last().1.access_count as nat
    }
}

/// Whether an entry is still fresh at `now_ms`: less than `ttl_ms` has
/// passed since it was cached.
pub open spec fn fresh_at(c: CachedAsset, now_ms: u64, ttl_ms: u64) -> bool {
    (if now_ms >= c.cached_at_ms { now_ms - c.cached_at_ms } else { 0 }) < ttl_ms
}

/// What a lookup of `id` at `now_ms` returns: the data of a fresh entry.
pub open spec fn lookup_result(
    m: Map<Seq<char>, CachedAsset>,
    id: Seq<char>,
    now_ms: u64,
    ttl_ms: u64,
) -> Option<Seq<u8>> {
    if m.contains_key(id) && fresh_at(m[id], now_ms, ttl_ms) {
        Some(m[id].data@)
    } else {
        None
    }
}

impl RetrievalWorkflow {
    /// Time to live of an entry.
    pub closed spec fn ttl(&self) -> u64 {
        self.cache_ttl_ms
    }

    /// Entry count at which a store evicts first.
    pub closed spec fn capacity(&self) -> nat {
        self.max_cache_size as nat
    }

    /// The cached entries by asset id.
    pub closed spec fn cache_map(&self) -> Map<Seq<char>, CachedAsset> {
        tmap(self.cache@)
    }

    /// The cached entries in insertion order.
    pub closed spec fn entries(&self) -> Seq<(String, CachedAsset)> {
        self.cache@
    }

    /// Cache keys are distinct.
    pub closed spec fn well_formed(&self) -> bool {
        unique_keys(self.cache@)
    }

    /// An empty cache.
    pub fn new(cache_ttl_ms: u64, max_cache_size: usize) -> (r: RetrievalWorkflow)
        ensures
            r.well_formed(),
            r.cache_map() == Map::<Seq<char>, CachedAsset>::empty(),
            r.entries().len() == 0,
            r.ttl() == cache_ttl_ms,
            r.capacity() == max_cache_size,
    {
        let r = RetrievalWorkflow { cache: Vec::new(), cache_ttl_ms, max_cache_size };
        assert(r.cache@ =~= Seq::<(String, CachedAsset)>::empty());
        r
    }

    /// How often the entry for `asset_id` was accessed, when there is one.
    pub fn access_count_of(&self, asset_id: &str) -> (r: Option<u64>)
        requires
            self.well_formed(),
        ensures
            match r {
                Some(n) => self.cache_map().contains_key(asset_id@) && self.cache_map()[asset_id@].access_count
                    == n,
                None => !self.cache_map().contains_key(asset_id@),
            },
    {
        match table_find(&self.cache, asset_id) {
            Some(i) => {
                proof {
                    lemma_tmap_index(self.cache@, i as int);
                }
                Some(self.cache[i].1.access_count)
            },
            None => None,
        }
    }

    /// Look `asset_id` up at `now_ms`: a fresh entry is counted as accessed
    /// and its data returned; a stale one is dropped.
    pub fn get_from_cache(&mut self, asset_id: &str, now_ms: u64) -> (r: Option<Vec<u8>>)
        requires
            old(self).well_formed(),
            old(self).cache_map().contains_key(asset_id@) ==> old(self).cache_map()[asset_id@].access_count
                < u64::MAX,
        ensures
            final(self).well_formed(),
            final(self).ttl() == old(self).ttl(),
            final(self).capacity() == old(self).capacity(),
            match r {
                Some(d) => lookup_result(old(self).cache_map(), asset_id@, now_ms, old(self).ttl())
                    == Some(d@),
                None => lookup_result(old(self).cache_map(), asset_id@, now_ms, old(self).ttl())
                    is None,
            },
            !old(self).cache_map().contains_key(asset_id@) ==> final(self).cache_map()
                == old(self).cache_map(),
            old(self).cache_map().contains_key(asset_id@) && fresh_at(
                old(self).cache_map()[asset_id@],
                now_ms,
                old(self).ttl(),
            ) ==> {
                let c = old(self).cache_map()[asset_id@];
                final(self).cache_map() == old(self).cache_map().insert(
                    asset_id@,
                    CachedAsset { data: c.data, cached_at_ms: c.cached_at_ms, access_count: (c.access_count + 1) as u64 },
                )
            },
            old(self).cache_map().contains_key(asset_id@) && !fresh_at(
                old(self).cache_map()[asset_id@],
                now_ms,
                old(self).ttl(),
            ) ==> final(self).cache_map() == old(self).cache_map().remove(asset_id@),
    {
        match table_find(&self.cache, asset_id) {
            None => None,
            Some(i) => {
                proof {
                    lemma_tmap_index(self.cache@, i as int);
                }
                let at = self.cache[i].1.cached_at_ms;
                let elapsed = if now_ms >= at { now_ms - at } else { 0 };
                if elapsed < self.cache_ttl_ms {
                    let (key, entry) = table_remove_at(&mut self.cache, i);
                    let data = copy_bytes(&entry.data);
                    let updated = CachedAsset {
                        data: entry.data,
                        cached_at_ms: entry.cached_at_ms,
                        access_count: entry.access_count + 1,
                    };
                    proof {
                        crate::table::lemma_tmap_dom(self.cache@);
                    }
                    table_push(&mut self.cache, key.as_str(), updated);
                    Some(data)
                } else {
                    table_remove_at(&mut self.cache, i);
                    None
                }
            },
        }
    }

    /// Index of the least-used entry (the first of those with the smallest
    /// access count).
    fn lru_index(&self) -> (r: usize)
        requires
            self.cache@.len() > 0,
        ensures
            is_lru_index(self.cache@, r as int),
    {
        let mut best: usize = 0;
        let mut i: usize = 1;
        while i < self.cache.len()
            invariant
                1 <= i <= self.cache@.len(),
                best < i,
                forall|j: int| 0 <= j < i ==> self.cache@[best as int].1.access_count <= (#[trigger] self.cache@[j]).1.access_count,
                forall|j: int| 0 <= j < best ==> self.cache@[best as int].1.access_count < (#[trigger] self.cache@[j]).1.access_count,
            decreases self.cache@.len() - i,
        {
            if self.cache[i].1.access_count < self.cache[best].1.access_count {
                best = i;
            }
            i = i + 1;
        }
        best
    }

    /// Store `data` for `asset_id` at `now_ms` with one access: when the
    /// cache is full the least-used entry is evicted first; an existing
    /// entry for the id is replaced.
    pub fn store_in_cache(&mut self, asset_id: &str, data: Vec<u8>, now_ms: u64)
        requires
            old(self).well_formed(),
        ensures
            final(self).well_formed(),
            final(self).ttl() == old(self).ttl(),
            final(self).capacity() == old(self).capacity(),
            final(self).cache_map().contains_key(asset_id@),
            final(self).cache_map()[asset_id@].data@ == data@,
            final(self).cache_map()[asset_id@].cached_at_ms == now_ms,
            final(self).cache_map()[asset_id@].access_count == 1,
            old(self).entries().len() < old(self).capacity() ==> final(self).cache_map()
                == old(self).cache_map().insert(
                asset_id@,
                CachedAsset { data, cached_at_ms: now_ms, access_count: 1 },
            ),
            old(self).entries().len() >= old(self).capacity() && old(self).entries().len() > 0
                ==> exists|v: int|
                is_lru_index(old(self).entries(), v) && final(self).cache_map() == old(
                    self,
                ).cache_map().remove(old(self).entries()[v].0@).insert(
                    asset_id@,
                    CachedAsset { data, cached_at_ms: now_ms, access_count: 1 },
                ),
    {
        let ghost data0 = data;
        if self.cache.len() >= self.max_cache_size && self.cache.len() > 0 {
            let v = self.lru_index();
            proof {
                assert(is_lru_index(self.cache@, v as int));
            }
            table_remove_at(&mut self.cache, v);
        }
        let entry = CachedAsset { data, cached_at_ms: now_ms, access_count: 1 };
        match table_find(&self.cache, asset_id) {
            Some(i) => {
                table_set_at(&mut self.cache, i, entry);
            },
            None => {
                table_push(&mut self.cache, asset_id, entry);
            },
        }
    }

    /// Finish a retrieval that missed the cache: a fetch error becomes
    /// `StorageFailed` and leaves the cache as it was; fetched data is
    /// returned and cached as `store_in_cache` caches it: at `now_ms`, with
    /// one access, after evicting the least-used entry when the cache is
    /// full.
    pub fn finish_retrieval(&mut self, asset_id: &str, fetched: Result<Vec<u8>, String>, now_ms: u64) -> (r: Result<Vec<u8>, WorkflowError>)
        requires
            old(self).well_formed(),
        ensures
            final(self).well_formed(),
            final(self).ttl() == old(self).ttl(),
            final(self).capacity() == old(self).capacity(),
            match fetched {
                Err(e) => r matches Err(err) && error_view(err) == (1int, e@) && final(self).cache_map()
                    == old(self).cache_map() && final(self).entries() == old(self).entries(),
                Ok(d) => {
                    let entry = CachedAsset { data: d, cached_at_ms: now_ms, access_count: 1 };
                    &&& r matches Ok(out) && out@ == d@
                    &&& final(self).cache_map().contains_key(asset_id@)
                    &&& final(self).cache_map()[asset_id@].data@ == d@
                    &&& final(self).cache_map()[asset_id@].cached_at_ms == now_ms
                    &&& final(self).cache_map()[asset_id@].access_count == 1
                    &&& old(self).entries().len() < old(self).capacity() ==> final(self).cache_map()
                        == old(self).cache_map().insert(asset_id@, entry)
                    &&& old(self).entries().len() >= old(self).capacity() && old(self).entries().len()
                        > 0 ==> exists|v: int|
                        is_lru_index(old(self).entries(), v) && final(self).cache_map() == old(
                            self,
                        ).cache_map().remove(old(self).entries()[v].0@).insert(asset_id@, entry)
                },
            },
    {
        match fetched {
            Err(e) => Err(WorkflowError::StorageFailed(e)),
            Ok(d) => {
                let out = copy_bytes(&d);
                self.store_in_cache(asset_id, d, now_ms);
                Ok(out)
            },
        }
    }

    /// The cache by id is the table of its entries: as many ids as entries,
    /// and each entry is what its id maps to.
    pub proof fn lemma_entries_of_cache(&self)
        requires
            self.well_formed(),
        ensures
            self.cache_map() == tmap(self.entries()),
            self.cache_map().dom().finite(),
            self.cache_map().dom().len() == self.entries().len(),
            forall|i: int|
                0 <= i < self.entries().len() ==> self.cache_map().contains_key(
                    #[trigger] self.entries()[i].0@,
                ) && self.cache_map()[self.entries()[i].0@] == self.entries()[i].1,
    {
        crate::table::lemma_tmap_len(self.cache@);
        assert forall|i: int| 0 <= i < self.entries().len() implies self.cache_map().contains_key(
            #[trigger] self.entries()[i].0@,
        ) && self.cache_map()[self.entries()[i].0@] == self.entries()[i].1 by {
            lemma_tmap_index(self.cache@, i);
        }
    }

    /// Drop every entry.
    pub fn clear_cache(&mut self)
        ensures
            final(self).well_formed(),
            final(self).cache_map() == Map::<Seq<char>, CachedAsset>::empty(),
            final(self).ttl() == old(self).ttl(),
            final(self).capacity() == old(self).capacity(),
    {
        self.cache = Vec::new();
        assert(self.cache@ =~= Seq::<(String, CachedAsset)>::empty());
    }

    /// Number of entries, their total size and total access count.
    pub fn cache_stats(&self) -> (r: CacheStats)
        requires
            total_size(self.entries()) <= usize::MAX,
            total_accesses(self.entries()) <= u64::MAX,
        ensures
            r.entries == self.entries().len(),
            r.total_size_bytes == total_size(self.entries()),
            r.total_accesses == total_accesses(self.entries()),
    {
        let mut size: usize = 0;
        let mut accesses: u64 = 0;
        let mut i: usize = 0;
        while i < self.cache.len()
            invariant
                i <= self.cache@.len(),
                size == total_size(self.cache@.take(i as int)),
                accesses == total_accesses(self.cache@.take(i as int)),
                total_size(self.cache@) <= usize::MAX,
                total_accesses(self.cache@) <= u64::MAX,
            decreases self.cache@.len() - i,
        {
            assert(self.cache@.take(i + 1).drop_last() =~= self.cache@.take(i as int));
            proof {
                lemma_totals_prefix(self.cache@, i + 1);
            }
            size = size + self.cache[i].1.data.len();
            accesses = accesses + self.cache[i].1.access_count;
            i = i + 1;
        }
        assert(self.cache@.take(self.cache@.len() as int) =~= self.cache@);
        CacheStats { entries: self.cache.len(), total_size_bytes: size, total_accesses: accesses }
    }
}

proof fn lemma_totals_prefix(s: Seq<(String, CachedAsset)>, k: int)
    requires
        0 <= k <= s.len(),
    ensures
        total_size(s.take(k)) <= total_size(s),
        total_accesses(s.take(k)) <= total_accesses(s),
    decreases s.len(),
{
    if k < s.len() {
        assert(s.drop_last().take(k) =~= s.take(k));
        lemma_totals_prefix(s.drop_last(), k);
    } else {
        assert(s.take(k) =~= s);
    }
}

/// A copy of a byte vector.
pub fn copy_bytes(v: &Vec<u8>) -> (r: Vec<u8>)
    ensures
        r@ == v@,
{
    let mut out: Vec<u8> = Vec::new();
    let mut i: usize = 0;
    while i < v.len()
        invariant
            i <= v@.len(),
            out@ == v@.take(i as int),
        decreases v@.len() - i,
    {
        out.push(v[i]);
        i = i + 1;
        assert(out@ =~= v@.take(i as int));
    }
    assert(v@.take(v@.len() as int) =~= v@);
    out
}

/// A lookup within the time to live of a store returns what was stored:
/// once the cache holds `data` for `id` cached at `t1` (as `store_in_cache`
/// leaves it), a lookup at any `t2` with `t1 <= t2 < t1 + ttl_ms` yields
/// `data`.
pub proof fn law_store_then_get(
    m: Map<Seq<char>, CachedAsset>,
    id: Seq<char>,
    data: Seq<u8>,
    t1: u64,
    t2: u64,
    ttl_ms: u64,
)
    requires
        m.contains_key(id),
        m[id].data@ == data,
        m[id].cached_at_ms == t1,
        t1 <= t2,
        t2 - t1 < ttl_ms,
    ensures
        lookup_result(m, id, t2, ttl_ms) == Some(data),
{
}

/// A lookup after the time to live has run out misses.
pub proof fn law_expired_entry_misses(
    m: Map<Seq<char>, CachedAsset>,
    id: Seq<char>,
    t2: u64,
    ttl_ms: u64,
)
    requires
        m.contains_key(id),
        m[id].cached_at_ms <= t2,
        t2 - m[id].cached_at_ms >= ttl_ms,
    ensures
        lookup_result(m, id, t2, ttl_ms) is None,
{
}

/// The values of the successful results, in order.
pub open spec fn ok_values<T>(rs: Seq<Result<T, WorkflowError>>) -> Seq<T>
    decreases rs.len(),
{
    if rs.len() == 0 {
        Seq::empty()
    } else {
        match rs.last() {
            Ok(v) => ok_values(rs.drop_last()).push(v),
            Err(_) => ok_values(rs.drop_last()),
        }
    }
}

/// Number of failed results.
pub open spec fn error_count<T>(rs: Seq<Result<T, WorkflowError>>) -> nat
    decreases rs.len(),
{
    if rs.len() == 0 {
        0
    } else {
        match rs.last() {
            Ok(_) => error_count(rs.drop_last()),
            Err(_) => error_count(rs.drop_last()) + 1,
        }
    }
}

proof fn lemma_error_count_le<T>(rs: Seq<Result<T, WorkflowError>>)
    ensures
        error_count(rs) <= rs.len(),
    decreases rs.len(),
{
    if rs.len() > 0 {
        lemma_error_count_le(rs.drop_last());
    }
}

/// End of a batch run: record the run in `metrics` (successful exactly
/// when no item failed) and give back every processed item in the order
/// the results came, or, when any item failed, the error that says how
/// many did.
pub fn finish_batch<T>(
    metrics: &mut WorkflowMetrics,
    elapsed_ms: u64,
    results: Vec<Result<T, WorkflowError>>,
) -> (r: Result<Vec<T>, WorkflowError>)
    requires
        old(metrics).total_executions < u64::MAX,
        old(metrics).successful_executions < u64::MAX,
        old(metrics).failed_executions < u64::MAX,
        old(metrics).avg_execution_time_ms * old(metrics).total_executions + elapsed_ms <= u64::MAX,
    ensures
        final(metrics).total_executions == old(metrics).total_executions + 1,
        final(metrics).successful_executions == old(metrics).successful_executions + if error_count(
            results@,
        ) == 0 {
            1int
        } else {
            0int
        },
        final(metrics).failed_executions == old(metrics).failed_executions + if error_count(
            results@,
        ) == 0 {
            0int
        } else {
            1int
        },
        final(metrics).avg_execution_time_ms == next_average(
            old(metrics).avg_execution_time_ms,
            old(metrics).total_executions,
            elapsed_ms,
        ),
        final(metrics).min_execution_time_ms == if old(metrics).min_execution_time_ms == 0
            || elapsed_ms < old(metrics).min_execution_time_ms {
            elapsed_ms
        } else {
            old(metrics).min_execution_time_ms
        },
        final(metrics).max_execution_time_ms == if elapsed_ms > old(metrics).max_execution_time_ms {
            elapsed_ms
        } else {
            old(metrics).max_execution_time_ms
        },
        final(metrics).stage_timings@ == old(metrics).stage_timings@,
        error_count(results@) == 0 ==> (r matches Ok(v) && v@ == ok_values(results@)),
        error_count(results@) > 0 ==> (r matches Err(e) && workflow_error_text(e) == "Workflow error: "@
            + "Batch processing failed with "@ + decimal(error_count(results@)) + " errors"@),
{
    let ghost rs = results@;
    let mut processed: Vec<T> = Vec::new();
    let mut errors: u64 = 0;
    let mut i: usize = 0;
    let n = results.len();
    let mut remaining = results;
    proof {
        assert(rs.take(0) =~= Seq::<Result<T, WorkflowError>>::empty());
    }
    while remaining.len() > 0
        invariant
            remaining@.len() + i == n,
            n == rs.len(),
            remaining@ == rs.skip(i as int),
            processed@ == ok_values(rs.take(i as int)),
            errors == error_count(rs.take(i as int)),
            i <= n,
        decreases remaining@.len(),
    {
        proof {
            lemma_error_count_le(rs.take(i as int));
            assert(rs.take(i + 1).drop_last() =~= rs.take(i as int));
            assert(rs.take(i + 1).last() == rs[i as int]);
            assert(remaining@[0] == rs[i as int]);
        }
        let item = remaining.remove(0);
        match item {
            Ok(v) => {
                processed.push(v);
            },
            Err(_) => {
                errors = errors + 1;
            },
        }
        proof {
            assert(remaining@ =~= rs.skip(i + 1));
        }
        i = i + 1;
    }
    proof {
        assert(rs.take(n as int) =~= rs);
    }
    metrics.update(elapsed_ms, errors == 0);
    if errors == 0 {
        Ok(processed)
    } else {
        let digits = u64_to_decimal(errors);
        proof {
            reveal_strlit("Batch processing failed with ");
            reveal_strlit(" errors");
        }
        Err(WorkflowError::Workflow(concat3("Batch processing failed with ", digits.as_str(), " errors")))
    }
}

} // verus!
