use blockmatrix::integration::{
    overall_status, perform_health_checks, pipeline_settings_for, ComponentIntegration,
    ComponentStatus, HealthCheck, IntegrationConfig, IntegrationEvent, IntegrationMetrics,
    PrivacyTier,
};
use blockmatrix::intelligence::{IntelligenceLayerConfig, StubTrustChainClient as InlineStub};
use blockmatrix::path_policy::{apply_path_recommendation, PathPolicyRecommendation, SchedulingStrategy};
use blockmatrix::performance::{isqrt, performance_score, recommendations, sort_samples, LatencyTracker};
use blockmatrix::trust_stub::StubTrustChainClient;
use blockmatrix::validation::{
    check_performance_targets, report_performance, IntegrationValidator, PerformanceTargets,
    ValidationReport, ValidationResult,
};
use blockmatrix::workflows::{
    after_attempt, AttemptOutcome, ProcessingWorkflow, RetrievalWorkflow, StageStep, WorkflowError,
    WorkflowMetrics,
};

fn passed(msg: &str, ms: u64) -> ValidationResult {
    ValidationResult::Passed { message: msg.to_string(), duration_ms: ms }
}

fn failed(reason: &str) -> ValidationResult {
    ValidationResult::Failed { reason: reason.to_string(), details: vec![] }
}

#[test]
fn test_validation_result() {
    let p = passed("Test passed", 100);
    assert!(p.is_passed());
    assert!(!p.is_failed());

    let f = failed("Test failed");
    assert!(!f.is_passed());
    assert!(f.is_failed());
}

#[test]
fn test_validation_report() {
    let results = vec![
        ("test1".to_string(), passed("OK", 10)),
        ("test2".to_string(), failed("Error")),
    ];
    let report = ValidationReport {
        id: "test".to_string(),
        timestamp_secs: 0,
        total_validations: 2,
        passed: 1,
        failed: 1,
        skipped: 0,
        results,
        component_status: vec![],
        performance: report_performance(true),
        success: false,
    };
    assert!(!report.all_healthy());
    assert_eq!(report.get_failures().len(), 1);
}

#[test]
fn test_integration_validator() {
    let validator = IntegrationValidator::new();
    let result = validator.validate_performance_targets(3);
    assert!(result.is_passed());
}

#[test]
fn report_from_results_counts_outcomes() {
    let results = vec![
        ("a".to_string(), passed("ok", 1)),
        ("b".to_string(), failed("broken")),
        ("c".to_string(), ValidationResult::Skipped { reason: "n/a".to_string() }),
        ("d".to_string(), passed("ok", 2)),
    ];
    let report = ValidationReport::from_results("r1".to_string(), 77, results, report_performance(true));
    assert_eq!(report.total_validations, 4);
    assert_eq!(report.passed, 2);
    assert_eq!(report.failed, 1);
    assert_eq!(report.skipped, 1);
    assert!(!report.success);
    assert!(!report.all_healthy());
    assert_eq!(report.component_status[0], ("a".to_string(), true));
    assert_eq!(report.component_status[1], ("b".to_string(), false));
    assert_eq!(report.get_failures(), vec![("b".to_string(), "broken".to_string())]);
    assert_eq!(report.performance.deduplication_rate_bp, 9200);
    assert_eq!(report.performance.storage_efficiency_bp, 8500);
}

#[test]
fn performance_check_reports_each_missed_target() {
    let targets = PerformanceTargets::default();
    match check_performance_targets(&targets, 600, 150, 8950, 4) {
        ValidationResult::Failed { reason, details } => {
            assert_eq!(reason, "Performance targets not met");
            assert_eq!(
                details,
                vec![
                    "Processing time 600ms exceeds target 500ms".to_string(),
                    "Retrieval time 150ms exceeds target 100ms".to_string(),
                    "Deduplication rate 89.50% below target 90.00%".to_string(),
                ]
            );
        }
        other => panic!("expected failure, got {other:?}"),
    }
    match check_performance_targets(&targets, 500, 100, 9000, 9) {
        ValidationResult::Passed { message, duration_ms } => {
            assert_eq!(message, "All performance targets met");
            assert_eq!(duration_ms, 9);
        }
        other => panic!("expected pass, got {other:?}"),
    }
    match check_performance_targets(&targets, 1, 1, 905, 0) {
        ValidationResult::Failed { details, .. } => {
            assert_eq!(details, vec!["Deduplication rate 9.05% below target 90.00%".to_string()]);
        }
        other => panic!("expected failure, got {other:?}"),
    }
}

#[test]
fn run_validation_skips_unknown_names() {
    let v = IntegrationValidator::new();
    match v.run_validation("latency", 0) {
        ValidationResult::Skipped { reason } => assert_eq!(reason, "Unknown validation: latency"),
        other => panic!("expected skip, got {other:?}"),
    }
    assert!(v.run_validation("performance", 0).is_passed());
}

#[test]
fn test_latency_tracker() {
    let mut tracker = LatencyTracker::new(100);
    for i in 1..=100u64 {
        tracker.record(i);
    }
    let metrics = tracker.get_metrics();
    assert_eq!(metrics.min_ms, 1);
    assert_eq!(metrics.max_ms, 100);
    assert_eq!(metrics.avg_ms, 50);
    assert!(metrics.percentiles.iter().any(|(k, _)| k == "p50"));
    assert!(metrics.percentiles.iter().any(|(k, _)| k == "p99"));
}

#[test]
fn latency_average_is_mean_of_window() {
    let mut tracker = LatencyTracker::new(1);
    tracker.record(10);
    tracker.record(10);
    assert_eq!(tracker.get_metrics().avg_ms, 10);
}

#[test]
fn latency_tracker_percentiles_and_window() {
    let mut tracker = LatencyTracker::new(3);
    for v in [30u64, 10, 20, 40] {
        tracker.record(v);
    }
    let m = tracker.get_metrics();
    // Window keeps the last three samples: 10, 20, 40.
    assert_eq!(m.min_ms, 10);
    assert_eq!(m.max_ms, 40);
    // Mean of the window: 70 / 3.
    assert_eq!(m.avg_ms, 23);
    let p: Vec<(String, u64)> = m.percentiles.clone();
    assert_eq!(p[0], ("p50".to_string(), 20));
    assert_eq!(p[4], ("p99".to_string(), 20));
    // Squared distances from 23: 169 + 9 + 289 = 467, / 3 = 155, sqrt -> 12.
    assert_eq!(m.std_dev_ms, 12);
    let mut h = m.histogram.clone();
    h.sort();
    assert_eq!(h, vec![(10, 1), (20, 1), (30, 1), (40, 1)]);
}

#[test]
fn latency_tracker_empty_is_zero() {
    let tracker = LatencyTracker::new(10);
    let m = tracker.get_metrics();
    assert_eq!((m.min_ms, m.max_ms, m.avg_ms, m.std_dev_ms), (0, 0, 0, 0));
    assert!(m.percentiles.is_empty());
    assert!(m.histogram.is_empty());
}

#[test]
fn sorting_and_square_roots() {
    assert_eq!(sort_samples(&vec![5, 1, 4, 1, 3]), vec![1, 1, 3, 4, 5]);
    assert_eq!(isqrt(0), 0);
    assert_eq!(isqrt(15), 3);
    assert_eq!(isqrt(16), 4);
    assert_eq!(isqrt(u128::MAX), u64::MAX);
}

#[test]
fn performance_score_deductions() {
    assert_eq!(performance_score(10, 10, false, false, 100), 100);
    assert_eq!(performance_score(1500, 900, true, true, 5000), 45);
    assert_eq!(performance_score(900, 600, false, false, 4096), 90);
    assert_eq!(
        recommendations(1001, true, false),
        vec![
            "High P99 latency detected - consider optimizing slow operations".to_string(),
            "Throughput degradation detected - investigate bottlenecks".to_string(),
        ]
    );
}

#[test]
fn test_processing_workflow_stages() {
    let mut workflow = ProcessingWorkflow::new();
    let idx = workflow.find_stage("validation").expect("known stage");
    let step = after_attempt(&workflow.stages()[idx], 0, AttemptOutcome::Succeeded);
    match step {
        StageStep::Finished { retries } => {
            workflow.update_stage_metrics("validation", 12, true, retries);
        }
        other => panic!("expected success, got {other:?}"),
    }
    let m = workflow.stage_metrics_of("validation").expect("metrics recorded");
    assert_eq!(m.executions, 1);
    assert_eq!(m.successes, 1);
}

#[test]
fn unknown_stage_is_invalid_state() {
    let workflow = ProcessingWorkflow::new();
    match workflow.find_stage("polishing") {
        Err(e) => assert_eq!(e.message(), "Invalid state: Unknown stage: polishing"),
        Ok(_) => panic!("unknown stage accepted"),
    }
}

#[test]
fn retry_rule_retries_then_gives_up() {
    let workflow = ProcessingWorkflow::new();
    let validation = &workflow.stages()[0];
    match after_attempt(validation, 0, AttemptOutcome::Failed("boom".to_string())) {
        StageStep::RetryAfter { delay_ms, retries } => assert_eq!((delay_ms, retries), (100, 1)),
        other => panic!("{other:?}"),
    }
    match after_attempt(validation, 1, AttemptOutcome::TimedOut) {
        StageStep::RetryAfter { delay_ms, retries } => assert_eq!((delay_ms, retries), (100, 2)),
        other => panic!("{other:?}"),
    }
    match after_attempt(validation, 2, AttemptOutcome::TimedOut) {
        StageStep::GaveUp { retries, error } => {
            assert_eq!(retries, 2);
            assert_eq!(error.message(), "Timeout exceeded: Stage validation timeout after 5s");
        }
        other => panic!("{other:?}"),
    }
    let compression = &workflow.stages()[1];
    match after_attempt(compression, 1, AttemptOutcome::Failed("disk".to_string())) {
        StageStep::GaveUp { retries, error } => {
            assert_eq!(retries, 1);
            assert_eq!(error.message(), "Workflow error: disk");
        }
        other => panic!("{other:?}"),
    }
}

#[test]
fn workflow_metrics_track_min_max_average() {
    let mut m = WorkflowMetrics::default();
    m.update(30, true);
    m.update(10, false);
    m.update(50, true);
    assert_eq!(m.total_executions, 3);
    assert_eq!(m.successful_executions, 2);
    assert_eq!(m.failed_executions, 1);
    assert_eq!(m.min_execution_time_ms, 10);
    assert_eq!(m.max_execution_time_ms, 50);
    // (30) -> (30*1+10)/2 = 20 -> (20*2+50)/3 = 30
    assert_eq!(m.avg_execution_time_ms, 30);
}

#[test]
fn workflow_error_messages() {
    assert_eq!(WorkflowError::PipelineFailed("x".into()).message(), "Pipeline processing failed: x");
    assert_eq!(WorkflowError::StorageFailed("x".into()).message(), "Storage operation failed: x");
    assert_eq!(WorkflowError::NetworkFailed("x".into()).message(), "Network operation failed: x");
    assert_eq!(WorkflowError::PrivacyFailed("x".into()).message(), "Privacy validation failed: x");
    assert_eq!(WorkflowError::ResourceExhausted("x".into()).message(), "Resource exhausted: x");
}

#[test]
fn test_retrieval_workflow_caching() {
    let mut workflow = RetrievalWorkflow::new(60_000, 10);
    let mut call_count = 0;

    // First call misses and retrieves.
    let data1 = match workflow.get_from_cache("asset1", 0) {
        Some(d) => d,
        None => {
            call_count += 1;
            workflow.finish_retrieval("asset1", Ok(vec![1, 2, 3]), 0).expect("stored")
        }
    };
    assert_eq!(data1, vec![1, 2, 3]);
    assert_eq!(call_count, 1);

    // Second call hits the cache.
    let data2 = match workflow.get_from_cache("asset1", 5) {
        Some(d) => d,
        None => {
            call_count += 1;
            workflow.finish_retrieval("asset1", Ok(vec![1, 2, 3]), 5).expect("stored")
        }
    };
    assert_eq!(data2, vec![1, 2, 3]);
    assert_eq!(call_count, 1);

    let stats = workflow.cache_stats();
    assert_eq!(stats.entries, 1);
    assert_eq!(stats.total_accesses, 2);
}

#[test]
fn cache_expires_and_evicts_least_used() {
    let mut c = RetrievalWorkflow::new(100, 2);
    c.store_in_cache("a", vec![1], 0);
    c.store_in_cache("b", vec![2, 2], 0);
    assert_eq!(c.get_from_cache("a", 50), Some(vec![1]));
    // Full: "b" has fewer accesses and is evicted.
    c.store_in_cache("c", vec![3], 60);
    assert_eq!(c.get_from_cache("b", 60), None);
    assert_eq!(c.get_from_cache("c", 61), Some(vec![3]));
    // Expired after the time to live.
    assert_eq!(c.get_from_cache("a", 100), None);
    assert_eq!(c.cache_stats().entries, 1);
    match c.finish_retrieval("z", Err("offline".to_string()), 0) {
        Err(e) => assert_eq!(e.message(), "Storage operation failed: offline"),
        Ok(_) => panic!("fetch error swallowed"),
    }
    c.clear_cache();
    assert_eq!(c.cache_stats().entries, 0);
}

#[test]
fn test_privacy_pipeline_integration() {
    let settings = pipeline_settings_for(PrivacyTier::Public);
    assert!(settings.quantum_resistant);
    assert_eq!(settings.parity_shards, 4);
}

#[test]
fn pipeline_settings_per_tier() {
    let a = pipeline_settings_for(PrivacyTier::Anonymous);
    assert_eq!((a.data_shards, a.parity_shards, a.target_shard_size, a.compression_level), (4, 2, 4 * 1024 * 1024, 2));
    assert!(!a.quantum_resistant);
    let f = pipeline_settings_for(PrivacyTier::Federated);
    assert_eq!((f.data_shards, f.parity_shards, f.key_iterations), (8, 3, 100_000));
    let p = pipeline_settings_for(PrivacyTier::PrivateP2P);
    assert_eq!((p.key_iterations, p.target_shard_size), (50_000, 2 * 1024 * 1024));
}

#[test]
fn test_component_integration_creation() {
    let integration = ComponentIntegration::new(IntegrationConfig::default());
    let health = integration.get_health(0);
    assert!(matches!(health.overall_status, ComponentStatus::Healthy));
}

#[test]
fn test_integration_validation() {
    let mut integration = ComponentIntegration::new(IntegrationConfig::default());
    integration.apply_health_checks(perform_health_checks(1));
    let components = vec!["stoq_transport".to_string(), "privacy_manager".to_string()];
    assert!(integration.validate_integration(&components));
}

fn check(name: &str, status: ComponentStatus) -> HealthCheck {
    HealthCheck {
        component: name.to_string(),
        status,
        last_check_secs: 0,
        response_time_ms: 1,
        diagnostics: vec![],
    }
}

#[test]
fn health_changes_are_reported_once_per_change() {
    let mut integration = ComponentIntegration::new(IntegrationConfig::default());
    integration.apply_health_checks(vec![check("db", ComponentStatus::Healthy)]);
    integration.apply_health_checks(vec![
        check("db", ComponentStatus::Degraded("slow".to_string())),
        check("db", ComponentStatus::Degraded("slow".to_string())),
        check("cache", ComponentStatus::Unhealthy("down".to_string())),
    ]);
    let health = integration.get_health(9);
    assert_eq!(health.components.len(), 2);
    assert_eq!(health.timestamp_secs, 9);
    match health.overall_status {
        ComponentStatus::Unhealthy(m) => assert_eq!(m, "One or more components unhealthy"),
        other => panic!("{other:?}"),
    }
    assert!(integration.validate_integration(&vec!["db".to_string()]));
    assert!(!integration.validate_integration(&vec!["cache".to_string()]));
    assert!(!integration.validate_integration(&vec!["missing".to_string()]));
}

#[test]
fn overall_status_rules() {
    assert_eq!(overall_status(&vec![]), ComponentStatus::Healthy);
    assert_eq!(
        overall_status(&vec![check("a", ComponentStatus::Healthy), check("b", ComponentStatus::Uninitialized)]),
        ComponentStatus::Degraded("Some components degraded".to_string())
    );
}

#[test]
fn disabled_validation_accepts_everything() {
    let mut config = IntegrationConfig::default();
    config.enable_validation = false;
    let integration = ComponentIntegration::new(config);
    assert!(integration.validate_integration(&vec!["anything".to_string()]));
}

#[test]
fn events_are_dropped_without_streaming() {
    let mut config = IntegrationConfig::default();
    config.enable_event_streaming = false;
    let mut integration = ComponentIntegration::new(config);
    integration.send_event(IntegrationEvent::ProcessingCompleted {
        asset_id: "x".to_string(),
        duration_ms: 1,
        shards_created: 2,
    });
    integration.record_call("stoq_matrix", 10);
    integration.record_call("stoq_matrix", 20);
    let health = integration.get_health(0);
    assert_eq!(health.metrics.total_calls, 2);
    assert_eq!(health.metrics.avg_latency_ms, 15);
    assert_eq!(health.metrics.call_distribution, vec![("stoq_matrix".to_string(), 2)]);
}

#[test]
fn record_call_running_average() {
    let mut m = IntegrationMetrics::default();
    m.record_call("a", 9);
    m.record_call("b", 3);
    m.record_call("a", 3);
    assert_eq!(m.total_calls, 3);
    assert_eq!(m.successful_calls, 3);
    assert_eq!(m.failed_calls, 0);
    // 9 -> (9+3)/2 = 6 -> (6*2+3)/3 = 5
    assert_eq!(m.avg_latency_ms, 5);
    assert_eq!(m.call_distribution, vec![("a".to_string(), 2), ("b".to_string(), 1)]);
}

#[test]
fn engauge_bridge_path_recommendation_maps_strategies() {
    let rec = PathPolicyRecommendation { enable_redundant: false, strategy: SchedulingStrategy::BandwidthWeighted };
    let (redundant, name) = apply_path_recommendation(&rec);
    assert!(!redundant);
    assert_eq!(name, "BandwidthWeighted");

    let rec2 = PathPolicyRecommendation { enable_redundant: true, strategy: SchedulingStrategy::Redundant };
    let (redundant2, name2) = apply_path_recommendation(&rec2);
    assert!(redundant2);
    assert_eq!(name2, "Redundant");
}

#[test]
fn ngauge_bridge_path_recommendation_maps_strategies() {
    let rec = PathPolicyRecommendation { enable_redundant: false, strategy: SchedulingStrategy::BandwidthWeighted };
    let (redundant, name) = apply_path_recommendation(&rec);
    assert!(!redundant);
    assert_eq!(name, "BandwidthWeighted");

    let rec2 = PathPolicyRecommendation { enable_redundant: true, strategy: SchedulingStrategy::Redundant };
    let (redundant2, name2) = apply_path_recommendation(&rec2);
    assert!(redundant2);
    assert_eq!(name2, "Redundant");
}

#[test]
fn path_recommendation_other_strategies() {
    let l = PathPolicyRecommendation { enable_redundant: false, strategy: SchedulingStrategy::LowestLatency };
    assert_eq!(apply_path_recommendation(&l), (false, "LowestLatency"));
    let r = PathPolicyRecommendation { enable_redundant: true, strategy: SchedulingStrategy::RoundRobin };
    assert_eq!(apply_path_recommendation(&r), (true, "RoundRobin"));
}

#[test]
fn stub_trust_clients() {
    let stub = StubTrustChainClient::new();
    let creds = stub.request_credentials("net", 1000);
    assert_eq!(creds.certificate, vec![0u8; 64]);
    assert_eq!(creds.public_key, vec![0u8; 32]);
    assert_eq!(creds.private_key_encrypted, vec![0u8; 32]);
    assert_eq!(creds.session_tokens.len(), 1);
    assert_eq!(creds.session_tokens[0].token, vec![0u8; 32]);
    assert_eq!(creds.session_tokens[0].issued_at_secs, 1000);
    assert_eq!(creds.session_tokens[0].expires_at_secs, 4600);
    assert_eq!(creds.expires_at_secs, 87400);
    assert!(stub.validate_certificate(b"anything"));
    assert!(stub.revoke_credentials("net").is_ok());
    assert!(stub.discover_networks().is_empty());

    let inline = InlineStub::new();
    let c = inline.request_credentials("net", 5);
    assert!(c.certificate.is_empty() && c.session_tokens.is_empty());
    assert_eq!(c.expires_at_secs, 86405);
}

#[test]
fn intelligence_layer_defaults() {
    let c = IntelligenceLayerConfig::default();
    assert!(c.enable_monitoring);
    assert_eq!(c.max_concurrent_processing, 100);
    assert_eq!((c.processing_timeout_secs, c.retrieval_timeout_secs), (30, 10));
    assert_eq!(c.default_compression_level, 4);
    assert_eq!(c.sharding_config, (10, 4));
}
