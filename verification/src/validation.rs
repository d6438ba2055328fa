//! Validation outcomes, validation reports and the performance-target check.
//!
//! Rates are kept in basis points (hundredths of a percent): 9200 stands for
//! a rate of 0.92.

use vstd::prelude::*;
use crate::text::{concat2, concat3, copy_string, decimal, u64_to_decimal};

verus! {

/// Outcome of one validation.
#[derive(Clone, Debug)]
pub enum ValidationResult {
    Passed { message: String, duration_ms: u64 },
    Failed { reason: String, details: Vec<String> },
    Skipped { reason: String },
}

impl ValidationResult {
    /// Whether the validation passed.
    pub fn is_passed(&self) -> (r: bool)
        ensures
            r == (self is Passed),
    {
        matches!(self, ValidationResult::Passed { .. })
    }

    /// Whether the validation failed.
    pub fn is_failed(&self) -> (r: bool)
        ensures
            r == (self is Failed),
    {
        matches!(self, ValidationResult::Failed { .. })
    }

    /// Whether the validation was skipped.
    pub fn is_skipped(&self) -> (r: bool)
        ensures
            r == (self is Skipped),
    {
        matches!(self, ValidationResult::Skipped { .. })
    }
}

/// Performance figures attached to a report.
#[derive(Clone, Debug)]
pub struct PerformanceValidation {
    pub avg_processing_time_ms: u64,
    pub avg_retrieval_time_ms: u64,
    pub deduplication_rate_bp: u64,
    pub avg_network_latency_ms: u64,
    pub storage_efficiency_bp: u64,
    pub meets_targets: bool,
}

/// Summary of a validation run.
#[derive(Clone, Debug)]
pub struct ValidationReport {
    pub id: String,
    pub timestamp_secs: u64,
    pub total_validations: usize,
    pub passed: usize,
    pub failed: usize,
    pub skipped: usize,
    pub results: Vec<(String, ValidationResult)>,
    pub component_status: Vec<(String, bool)>,
    pub performance: PerformanceValidation,
    pub success: bool,
}

/// Number of results in `rs` that passed.
pub open spec fn count_passed(rs: Seq<(String, ValidationResult)>) -> nat
    decreases rs.len(),
{
    if rs.len() == 0 {
        0
    } else {
        count_passed(rs.drop_last()) + if rs.last().1 is Passed { 1nat } else { 0nat }
    }
}

/// Number of results in `rs` that failed.
pub open spec fn count_failed(rs: Seq<(String, ValidationResult)>) -> nat
    decreases rs.len(),
{
    if rs.len() == 0 {
        0
    } else {
        count_failed(rs.drop_last()) + if rs.last().1 is Failed { 1nat } else { 0nat }
    }
}

/// Number of results in `rs` that were skipped.
pub open spec fn count_skipped(rs: Seq<(String, ValidationResult)>) -> nat
    decreases rs.len(),
{
    if rs.len() == 0 {
        0
    } else {
        count_skipped(rs.drop_last()) + if rs.last().1 is Skipped { 1nat } else { 0nat }
    }
}

/// The `(name, reason)` pairs of the failed results, in order.
pub open spec fn failures_of(rs: Seq<(String, ValidationResult)>) -> Seq<(Seq<char>, Seq<char>)>
    decreases rs.len(),
{
    if rs.len() == 0 {
        Seq::empty()
    } else {
        let rest = failures_of(rs.drop_last());
        match rs.last().1 {
            ValidationResult::Failed { reason, .. } => rest.push((rs.last().0@, reason@)),
            _ => rest,
        }
    }
}

proof fn lemma_counts_bounded(rs: Seq<(String, ValidationResult)>)
    ensures
        count_passed(rs) <= rs.len(),
        count_failed(rs) <= rs.len(),
        count_skipped(rs) <= rs.len(),
    decreases rs.len(),
{
    if rs.len() > 0 {
        lemma_counts_bounded(rs.drop_last());
    }
}

impl ValidationReport {
    /// Whether nothing failed and at least one validation passed.
    pub fn all_healthy(&self) -> (r: bool)
        ensures
            r == (self.failed == 0 && self.passed > 0),
    {
        self.failed == 0 && self.passed > 0
    }

    /// The name and reason of every failed result.
    pub fn get_failures(&self) -> (r: Vec<(String, String)>)
        ensures
            r@.len() == failures_of(self.results@).len(),
            forall|i: int|
                0 <= i < r@.len() ==> (#[trigger] r@[i]).0@ == failures_of(self.results@)[i].0
                    && r@[i].1@ == failures_of(self.results@)[i].1,
    {
        let mut out: Vec<(String, String)> = Vec::new();
        let mut i: usize = 0;
        while i < self.results.len()
            invariant
                i <= self.results@.len(),
                out@.len() == failures_of(self.results@.take(i as int)).len(),
                forall|k: int|
                    0 <= k < out@.len() ==> (#[trigger] out@[k]).0@ == failures_of(
                        self.results@.take(i as int),
                    )[k].0 && out@[k].1@ == failures_of(self.results@.take(i as int))[k].1,
            decreases self.results@.len() - i,
        {
            assert(self.results@.take(i + 1).drop_last() =~= self.results@.take(i as int));
            match &self.results[i].1 {
                ValidationResult::Failed { reason, .. } => {
                    out.push((copy_string(&self.results[i].0), copy_string(reason)));
                },
                _ => {},
            }
            i = i + 1;
        }
        assert(self.results@.take(self.results@.len() as int) =~= self.results@);
        out
    }

    /// Summarise `results`: counts per outcome, the pass flag of each
    /// component, and overall success when nothing failed.
    pub fn from_results(
        id: String,
        timestamp_secs: u64,
        results: Vec<(String, ValidationResult)>,
        performance: PerformanceValidation,
    ) -> (r: ValidationReport)
        ensures
            r.id@ == id@,
            r.timestamp_secs == timestamp_secs,
            r.results@ == results@,
            r.total_validations == results@.len(),
            r.passed == count_passed(results@),
            r.failed == count_failed(results@),
            r.skipped == count_skipped(results@),
            r.component_status@.len() == results@.len(),
            forall|i: int|
                0 <= i < results@.len() ==> (#[trigger] r.component_status@[i]).0@
                    == results@[i].0@ && r.component_status@[i].1 == (results@[i].1 is Passed),
            r.performance == performance,
            r.success == (count_failed(results@) == 0),
    {
        let mut passed: usize = 0;
        let mut failed: usize = 0;
        let mut skipped: usize = 0;
        let mut status: Vec<(String, bool)> = Vec::new();
        let mut i: usize = 0;
        while i < results.len()
            invariant
                i <= results@.len(),
                passed == count_passed(results@.take(i as int)),
                failed == count_failed(results@.take(i as int)),
                skipped == count_skipped(results@.take(i as int)),
                status@.len() == i,
                forall|k: int|
                    0 <= k < i ==> (#[trigger] status@[k]).0@ == results@[k].0@ && status@[k].1
                        == (results@[k].1 is Passed),
            decreases results@.len() - i,
        {
            assert(results@.take(i + 1).drop_last() =~= results@.take(i as int));
            proof {
                lemma_counts_bounded(results@.take(i as int));
            }
            let ok = results[i].1.is_passed();
            if ok {
                passed = passed + 1;
            } else if results[i].1.is_failed() {
                failed = failed + 1;
            } else {
                skipped = skipped + 1;
            }
            status.push((copy_string(&results[i].0), ok));
            i = i + 1;
        }
        assert(results@.take(results@.len() as int) =~= results@);
        let total = results.len();
        ValidationReport {
            id,
            timestamp_secs,
            total_validations: total,
            passed,
            failed,
            skipped,
            results,
            component_status: status,
            performance,
            success: failed == 0,
        }
    }
}

/// Thresholds a measured run must meet.
#[derive(Clone, Debug)]
pub struct PerformanceTargets {
    pub max_processing_time_ms: u64,
    pub max_retrieval_time_ms: u64,
    pub min_deduplication_rate_bp: u64,
    pub max_network_latency_ms: u64,
    pub min_storage_efficiency_bp: u64,
}

impl Default for PerformanceTargets {
    fn default() -> (r: Self)
        ensures
            r.max_processing_time_ms == 500,
            r.max_retrieval_time_ms == 100,
            r.min_deduplication_rate_bp == 9000,
            r.max_network_latency_ms == 50,
            r.min_storage_efficiency_bp == 8000,
    {
        PerformanceTargets {
            max_processing_time_ms: 500,
            max_retrieval_time_ms: 100,
            min_deduplication_rate_bp: 9000,
            max_network_latency_ms: 50,
            min_storage_efficiency_bp: 8000,
        }
    }
}

/// Two-digit text of `n < 100` (with a leading zero).
pub open spec fn two_digits(n: nat) -> Seq<char> {
    if n < 10 {
        seq!['0'] + decimal(n)
    } else {
        decimal(n)
    }
}

/// A rate in basis points printed as a percentage with two decimals.
pub open spec fn percent_text(bp: nat) -> Seq<char> {
    decimal(bp / 100) + seq!['.'] + two_digits(bp % 100) + seq!['%']
}

fn percent_string(bp: u64) -> (r: String)
    ensures
        r@ == percent_text(bp as nat),
{
    let whole = u64_to_decimal(bp / 100);
    let frac_n = bp % 100;
    let frac = u64_to_decimal(frac_n);
    let mut s = whole;
    s.append(".");
    if frac_n < 10 {
        s.append("0");
    }
    s.append(frac.as_str());
    s.append("%");
    proof {
        reveal_strlit(".");
        reveal_strlit("0");
        reveal_strlit("%");
    }
    s
}

pub open spec fn processing_failure(measured: nat, target: nat) -> Seq<char> {
    "Processing time "@ + decimal(measured) + "ms exceeds target "@ + decimal(target) + "ms"@
}

pub open spec fn retrieval_failure(measured: nat, target: nat) -> Seq<char> {
    "Retrieval time "@ + decimal(measured) + "ms exceeds target "@ + decimal(target) + "ms"@
}

pub open spec fn dedup_failure(measured_bp: nat, target_bp: nat) -> Seq<char> {
    "Deduplication rate "@ + percent_text(measured_bp) + " below target "@ + percent_text(
        target_bp,
    )
}

/// The failure lines of a performance check, in the order the checks run.
pub open spec fn performance_failures(
    t: PerformanceTargets,
    processing_ms: u64,
    retrieval_ms: u64,
    dedup_bp: u64,
) -> Seq<Seq<char>> {
    let a: Seq<Seq<char>> = if processing_ms > t.max_processing_time_ms {
        seq![processing_failure(processing_ms as nat, t.max_processing_time_ms as nat)]
    } else {
        Seq::empty()
    };
    let b: Seq<Seq<char>> = if retrieval_ms > t.max_retrieval_time_ms {
        seq![retrieval_failure(retrieval_ms as nat, t.max_retrieval_time_ms as nat)]
    } else {
        Seq::empty()
    };
    let c: Seq<Seq<char>> = if dedup_bp < t.min_deduplication_rate_bp {
        seq![dedup_failure(dedup_bp as nat, t.min_deduplication_rate_bp as nat)]
    } else {
        Seq::empty()
    };
    a + b + c
}

/// `r` is the outcome of checking the measured figures against `t`:
/// `Passed` with "All performance targets met" when no target is missed,
/// else `Failed` with "Performance targets not met" and one line per missed
/// target.
pub open spec fn performance_outcome(
    t: PerformanceTargets,
    processing_ms: u64,
    retrieval_ms: u64,
    dedup_bp: u64,
    duration_ms: u64,
    r: ValidationResult,
) -> bool {
    let failures = performance_failures(t, processing_ms, retrieval_ms, dedup_bp);
    if failures.len() == 0 {
        match r {
            ValidationResult::Passed { message, duration_ms: d } => message@
                == "All performance targets met"@ && d == duration_ms,
            _ => false,
        }
    } else {
        match r {
            ValidationResult::Failed { reason, details } => reason@ == "Performance targets not met"@
                && details@.map_values(|d: String| d@) == failures,
            _ => false,
        }
    }
}

fn measure_line(prefix: &str, measured: u64, middle: &str, target: u64, suffix: &str) -> (r: String)
    ensures
        r@ == prefix@ + decimal(measured as nat) + middle@ + decimal(target as nat) + suffix@,
{
    let mut s = String::from_str(prefix);
    let m = u64_to_decimal(measured);
    let t = u64_to_decimal(target);
    s.append(m.as_str());
    s.append(middle);
    s.append(t.as_str());
    s.append(suffix);
    s
}

/// Check measured figures against `targets`: `Passed` with "All performance
/// targets met" when every check holds, else `Failed` with one line per
/// missed target.
pub fn check_performance_targets(
    targets: &PerformanceTargets,
    processing_ms: u64,
    retrieval_ms: u64,
    dedup_bp: u64,
    duration_ms: u64,
) -> (r: ValidationResult)
    ensures
        performance_outcome(*targets, processing_ms, retrieval_ms, dedup_bp, duration_ms, r),
{
    let ghost expected = performance_failures(*targets, processing_ms, retrieval_ms, dedup_bp);
    let mut failures: Vec<String> = Vec::new();
    proof {
        reveal_strlit("Processing time ");
        reveal_strlit("ms exceeds target ");
        reveal_strlit("ms");
        reveal_strlit("Retrieval time ");
        reveal_strlit("Deduplication rate ");
        reveal_strlit(" below target ");
    }
    if processing_ms > targets.max_processing_time_ms {
        failures.push(
            measure_line(
                "Processing time ",
                processing_ms,
                "ms exceeds target ",
                targets.max_processing_time_ms,
                "ms",
            ),
        );
    }
    if retrieval_ms > targets.max_retrieval_time_ms {
        failures.push(
            measure_line(
                "Retrieval time ",
                retrieval_ms,
                "ms exceeds target ",
                targets.max_retrieval_time_ms,
                "ms",
            ),
        );
    }
    if dedup_bp < targets.min_deduplication_rate_bp {
        let measured = percent_string(dedup_bp);
        let target = percent_string(targets.min_deduplication_rate_bp);
        let line = concat3("Deduplication rate ", measured.as_str(), " below target ");
        let line2 = concat2(line.as_str(), target.as_str());
        failures.push(line2);
    }
    assert(failures@.map_values(|d: String| d@) =~= expected);
    if failures.len() == 0 {
        proof {
            reveal_strlit("All performance targets met");
        }
        ValidationResult::Passed {
            message: String::from_str("All performance targets met"),
            duration_ms,
        }
    } else {
        ValidationResult::Failed {
            reason: String::from_str("Performance targets not met"),
            details: failures,
        }
    }
}

/// Runs named validations against fixed performance targets.
pub struct IntegrationValidator {
    pub performance_targets: PerformanceTargets,
}

/// Processing time the performance check measures.
pub const MEASURED_PROCESSING_MS: u64 = 250;
/// Retrieval time the performance check measures.
pub const MEASURED_RETRIEVAL_MS: u64 = 50;
/// Deduplication rate the performance check measures.
pub const MEASURED_DEDUP_BP: u64 = 9200;

impl IntegrationValidator {
    /// A validator with the default targets.
    pub fn new() -> (r: IntegrationValidator)
        ensures
            r.performance_targets.max_processing_time_ms == 500,
            r.performance_targets.max_retrieval_time_ms == 100,
            r.performance_targets.min_deduplication_rate_bp == 9000,
            r.performance_targets.max_network_latency_ms == 50,
            r.performance_targets.min_storage_efficiency_bp == 8000,
    {
        IntegrationValidator { performance_targets: PerformanceTargets::default() }
    }

    /// The performance-target validation, timed at `duration_ms`.
    pub fn validate_performance_targets(&self, duration_ms: u64) -> (r: ValidationResult)
        ensures
            performance_outcome(
                self.performance_targets,
                MEASURED_PROCESSING_MS,
                MEASURED_RETRIEVAL_MS,
                MEASURED_DEDUP_BP,
                duration_ms,
                r,
            ),
    {
        check_performance_targets(
            &self.performance_targets,
            MEASURED_PROCESSING_MS,
            MEASURED_RETRIEVAL_MS,
            MEASURED_DEDUP_BP,
            duration_ms,
        )
    }

    /// Run the validation called `name`: only `performance` is known, every
    /// other name is skipped as unknown.
    pub fn run_validation(&self, name: &str, duration_ms: u64) -> (r: ValidationResult)
        ensures
            name@ != "performance"@ ==> (r matches ValidationResult::Skipped { reason } && reason@
                == "Unknown validation: "@ + name@),
            name@ == "performance"@ ==> performance_outcome(
                self.performance_targets,
                MEASURED_PROCESSING_MS,
                MEASURED_RETRIEVAL_MS,
                MEASURED_DEDUP_BP,
                duration_ms,
                r,
            ),
    {
        if crate::text::str_eq(name, "performance") {
            self.validate_performance_targets(duration_ms)
        } else {
            proof {
                reveal_strlit("Unknown validation: ");
            }
            ValidationResult::Skipped { reason: concat2("Unknown validation: ", name) }
        }
    }
}

/// The performance block of a full report: fixed figures, with
/// `meets_targets` given.
pub open spec fn report_performance_spec(meets_targets: bool) -> PerformanceValidation {
    PerformanceValidation {
        avg_processing_time_ms: 250,
        avg_retrieval_time_ms: 50,
        deduplication_rate_bp: 9200,
        avg_network_latency_ms: 25,
        storage_efficiency_bp: 8500,
        meets_targets,
    }
}

/// The performance block of a full report: fixed figures, with
/// `meets_targets` taken from the performance validation's outcome.
pub fn report_performance(meets_targets: bool) -> (r: PerformanceValidation)
    ensures
        r.avg_processing_time_ms == 250,
        r.avg_retrieval_time_ms == 50,
        r.deduplication_rate_bp == 9200,
        r.avg_network_latency_ms == 25,
        r.storage_efficiency_bp == 8500,
        r.meets_targets == meets_targets,
        r == report_performance_spec(meets_targets),
{
    PerformanceValidation {
        avg_processing_time_ms: 250,
        avg_retrieval_time_ms: 50,
        deduplication_rate_bp: 9200,
        avg_network_latency_ms: 25,
        storage_efficiency_bp: 8500,
        meets_targets,
    }
}

/// Checks a component offers about itself.
pub trait ComponentValidation {
    fn validate_health(&self) -> ValidationResult;

    fn validate_config(&self) -> ValidationResult;

    fn validate_connectivity(&self) -> ValidationResult;
}

/// End-to-end checks.
pub trait E2EValidation {
    fn validate_e2e(&self) -> ValidationResult;

    fn validate_performance(&self) -> ValidationResult;

    fn validate_integrity(&self) -> ValidationResult;
}

/// `r` passed with this message and duration.
pub open spec fn passed_with(r: ValidationResult, message: Seq<char>, duration_ms: u64) -> bool {
    r matches ValidationResult::Passed { message: m, duration_ms: d } && m@ == message && d
        == duration_ms
}

/// `r` failed with this reason and these details.
pub open spec fn failed_with(r: ValidationResult, reason: Seq<char>, details: Seq<Seq<char>>) -> bool {
    r matches ValidationResult::Failed { reason: m, details: ds } && m@ == reason && ds@.map_values(
        |s: String| s@,
    ) == details
}

fn passed(message: String, duration_ms: u64) -> (r: ValidationResult)
    ensures
        passed_with(r, message@, duration_ms),
{
    ValidationResult::Passed { message, duration_ms }
}

fn failed(reason: String, detail: Option<String>) -> (r: ValidationResult)
    ensures
        failed_with(
            r,
            reason@,
            match detail {
                Some(d) => seq![d@],
                None => Seq::empty(),
            },
        ),
{
    let mut details: Vec<String> = Vec::new();
    let ghost dv = match &detail {
        Some(d) => seq![d@],
        None => Seq::<Seq<char>>::empty(),
    };
    match detail {
        Some(d) => details.push(d),
        None => {},
    }
    assert(details@.map_values(|s: String| s@) =~= dv);
    ValidationResult::Failed { reason, details }
}

/// The validations of a full run, by name, in the order they run.
pub open spec fn validation_names_spec() -> Seq<Seq<char>> {
    seq![
        "stoq_transport"@,
        "privacy_manager"@,
        "network_coordinator"@,
        "asset_pipeline"@,
        "content_storage"@,
        "cross_component"@,
        "e2e_workflows"@,
        "performance"@,
    ]
}

/// The validations of a full run, by name, in order.
pub fn validation_names() -> (r: Vec<&'static str>)
    ensures
        r@.map_values(|s: &str| s@) == validation_names_spec(),
{
    let r: Vec<&'static str> = vec![
        "stoq_transport",
        "privacy_manager",
        "network_coordinator",
        "asset_pipeline",
        "content_storage",
        "cross_component",
        "e2e_workflows",
        "performance",
    ];
    assert(r@.map_values(|s: &str| s@) =~= validation_names_spec());
    r
}

/// The report of a full run from the outcomes of its eight validations, in
/// the order they run (named as `validation_names_spec` names them): the
/// counts and pass flags of `ValidationReport::from_results`, and the
/// performance block with `meets_targets` taken from the performance
/// validation.
pub fn all_components_report(
    id: String,
    timestamp_secs: u64,
    stoq: ValidationResult,
    privacy: ValidationResult,
    network: ValidationResult,
    pipeline: ValidationResult,
    storage: ValidationResult,
    cross: ValidationResult,
    e2e: ValidationResult,
    performance: ValidationResult,
) -> (r: ValidationReport)
    ensures
        r.id@ == id@,
        r.timestamp_secs == timestamp_secs,
        r.results@.map_values(|e: (String, ValidationResult)| e.0@) == validation_names_spec(),
        r.results@.map_values(|e: (String, ValidationResult)| e.1) == seq![
            stoq,
            privacy,
            network,
            pipeline,
            storage,
            cross,
            e2e,
            performance,
        ],
        r.total_validations == 8,
        r.passed == count_passed(r.results@),
        r.failed == count_failed(r.results@),
        r.skipped == count_skipped(r.results@),
        r.component_status@.len() == 8,
        forall|i: int|
            0 <= i < 8 ==> (#[trigger] r.component_status@[i]).0@ == r.results@[i].0@
                && r.component_status@[i].1 == (r.results@[i].1 is Passed),
        r.performance == report_performance_spec(performance is Passed),
        r.success == (count_failed(r.results@) == 0),
{
    let meets = performance.is_passed();
    let ghost args = seq![stoq, privacy, network, pipeline, storage, cross, e2e, performance];
    let mut results: Vec<(String, ValidationResult)> = Vec::new();
    results.push((String::from_str("stoq_transport"), stoq));
    results.push((String::from_str("privacy_manager"), privacy));
    results.push((String::from_str("network_coordinator"), network));
    results.push((String::from_str("asset_pipeline"), pipeline));
    results.push((String::from_str("content_storage"), storage));
    results.push((String::from_str("cross_component"), cross));
    results.push((String::from_str("e2e_workflows"), e2e));
    results.push((String::from_str("performance"), performance));
    proof {
        assert(results@.map_values(|e: (String, ValidationResult)| e.0@) =~= validation_names_spec());
        assert(results@.map_values(|e: (String, ValidationResult)| e.1) =~= args);
    }
    ValidationReport::from_results(id, timestamp_secs, results, report_performance(meets))
}

/// The transport validation: it passes either way; with connections it
/// says how many.
pub fn stoq_transport_result(active: u64, total: u64, duration_ms: u64) -> (r: ValidationResult)
    ensures
        (active > 0 || total > 0) ==> passed_with(
            r,
            "STOQ transport operational: "@ + decimal(active as nat) + " active connections, "@
                + decimal(total as nat) + " total"@,
            duration_ms,
        ),
        !(active > 0 || total > 0) ==> passed_with(r, "STOQ transport initialized and ready"@, duration_ms),
{
    proof {
        reveal_strlit("STOQ transport operational: ");
        reveal_strlit(" active connections, ");
        reveal_strlit(" total");
        reveal_strlit("STOQ transport initialized and ready");
    }
    if active > 0 || total > 0 {
        let a = u64_to_decimal(active);
        let t = u64_to_decimal(total);
        let head = concat3("STOQ transport operational: ", a.as_str(), " active connections, ");
        let m = concat3(head.as_str(), t.as_str(), " total");
        passed(m, duration_ms)
    } else {
        passed(String::from_str("STOQ transport initialized and ready"), duration_ms)
    }
}

/// The privacy validation: the access check on a test asset worked, or
/// the reason it did not.
pub fn privacy_manager_result(outcome: Result<(), String>, duration_ms: u64) -> (r: ValidationResult)
    ensures
        match outcome {
            Ok(()) => passed_with(r, "Privacy manager access control working"@, duration_ms),
            Err(e) => failed_with(r, "Privacy manager validation failed"@, seq![e@]),
        },
{
    proof {
        reveal_strlit("Privacy manager access control working");
        reveal_strlit("Privacy manager validation failed");
    }
    match outcome {
        Ok(()) => passed(String::from_str("Privacy manager access control working"), duration_ms),
        Err(e) => failed(String::from_str("Privacy manager validation failed"), Some(e)),
    }
}

/// The network validation: how many networks are managed, or the reason
/// they could not be listed.
pub fn network_coordinator_result(outcome: Result<u64, String>, duration_ms: u64) -> (r: ValidationResult)
    ensures
        match outcome {
            Ok(n) => passed_with(
                r,
                "Network coordinator managing "@ + decimal(n as nat) + " networks"@,
                duration_ms,
            ),
            Err(e) => failed_with(r, "Network coordinator validation failed"@, seq![e@]),
        },
{
    proof {
        reveal_strlit("Network coordinator managing ");
        reveal_strlit(" networks");
        reveal_strlit("Network coordinator validation failed");
    }
    match outcome {
        Ok(n) => {
            let d = u64_to_decimal(n);
            passed(concat3("Network coordinator managing ", d.as_str(), " networks"), duration_ms)
        },
        Err(e) => failed(String::from_str("Network coordinator validation failed"), Some(e)),
    }
}

/// The pipeline validation: processing a test asset must give shards.
pub fn asset_pipeline_result(outcome: Result<u64, String>, duration_ms: u64) -> (r: ValidationResult)
    ensures
        match outcome {
            Ok(n) => if n == 0 {
                failed_with(r, "Pipeline produced no shards"@, Seq::empty())
            } else {
                passed_with(r, "Pipeline produced "@ + decimal(n as nat) + " shards"@, duration_ms)
            },
            Err(e) => failed_with(r, "Asset pipeline validation failed"@, seq![e@]),
        },
{
    proof {
        reveal_strlit("Pipeline produced no shards");
        reveal_strlit("Pipeline produced ");
        reveal_strlit(" shards");
        reveal_strlit("Asset pipeline validation failed");
    }
    match outcome {
        Ok(n) => if n == 0 {
            failed(String::from_str("Pipeline produced no shards"), None)
        } else {
            let d = u64_to_decimal(n);
            passed(concat3("Pipeline produced ", d.as_str(), " shards"), duration_ms)
        },
        Err(e) => failed(String::from_str("Asset pipeline validation failed"), Some(e)),
    }
}

/// The steps of the cross-component validation, in order.
#[derive(PartialEq, Eq, Structural, Clone, Copy, Debug)]
pub enum IntegrationStep {
    Pipeline,
    Storage,
    Network,
}

/// Reason given when a step of the cross-component validation fails.
pub open spec fn integration_step_reason(s: IntegrationStep) -> Seq<char> {
    match s {
        IntegrationStep::Pipeline => "Pipeline integration failed"@,
        IntegrationStep::Storage => "Storage integration failed"@,
        IntegrationStep::Network => "Network integration failed"@,
    }
}

/// The cross-component validation: the first step that failed, with its
/// error, or success.
pub fn cross_component_result(failure: Option<(IntegrationStep, String)>, duration_ms: u64) -> (r:
    ValidationResult)
    ensures
        match failure {
            None => passed_with(
                r,
                "Cross-component integration validated successfully"@,
                duration_ms,
            ),
            Some((step, e)) => failed_with(r, integration_step_reason(step), seq![e@]),
        },
{
    proof {
        reveal_strlit("Cross-component integration validated successfully");
        reveal_strlit("Pipeline integration failed");
        reveal_strlit("Storage integration failed");
        reveal_strlit("Network integration failed");
    }
    match failure {
        None => passed(String::from_str("Cross-component integration validated successfully"), duration_ms),
        Some((step, e)) => {
            let reason = match step {
                IntegrationStep::Pipeline => "Pipeline integration failed",
                IntegrationStep::Storage => "Storage integration failed",
                IntegrationStep::Network => "Network integration failed",
            };
            failed(String::from_str(reason), Some(e))
        },
    }
}

/// The asset sizes the end-to-end validation runs, with their labels.
pub fn e2e_test_sizes() -> (r: Vec<(usize, &'static str)>)
    ensures
        r@.len() == 3,
        r@[0].0 == 1024 && r@[0].1@ == "1KB"@,
        r@[1].0 == 1048576 && r@[1].1@ == "1MB"@,
        r@[2].0 == 10485760 && r@[2].1@ == "10MB"@,
{
    vec![(1024, "1KB"), (1048576, "1MB"), (10485760, "10MB")]
}

/// The stages of one end-to-end run.
#[derive(PartialEq, Eq, Structural, Clone, Copy, Debug)]
pub enum E2EStage {
    Workflow,
    Storage,
    Retrieval,
}

/// Reason given when a stage fails for the asset of `label`.
pub open spec fn e2e_reason(s: E2EStage, label: Seq<char>) -> Seq<char> {
    match s {
        E2EStage::Workflow => "E2E workflow failed for "@ + label,
        E2EStage::Storage => "E2E storage failed for "@ + label,
        E2EStage::Retrieval => "E2E retrieval failed for "@ + label,
    }
}

/// The end-to-end validation: the first stage that failed, for which size
/// and with what error, or success.
pub fn e2e_result(failure: Option<(E2EStage, &str, String)>, duration_ms: u64) -> (r: ValidationResult)
    ensures
        match failure {
            None => passed_with(
                r,
                "E2E workflows validated for multiple asset sizes"@,
                duration_ms,
            ),
            Some((stage, label, e)) => failed_with(r, e2e_reason(stage, label@), seq![e@]),
        },
{
    proof {
        reveal_strlit("E2E workflows validated for multiple asset sizes");
        reveal_strlit("E2E workflow failed for ");
        reveal_strlit("E2E storage failed for ");
        reveal_strlit("E2E retrieval failed for ");
    }
    match failure {
        None => passed(String::from_str("E2E workflows validated for multiple asset sizes"), duration_ms),
        Some((stage, label, e)) => {
            let prefix = match stage {
                E2EStage::Workflow => "E2E workflow failed for ",
                E2EStage::Storage => "E2E storage failed for ",
                E2EStage::Retrieval => "E2E retrieval failed for ",
            };
            failed(concat2(prefix, label), Some(e))
        },
    }
}

} // verus!
