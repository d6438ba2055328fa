use blockmatrix::asset::{asset_info_id, asset_info_reply, asset_list_reply, AssetRow};
use blockmatrix::catalog_deps::{
    dependencies_not_wired_reply, dependencies_reply, dependency_key, lookup_failed, resolve_failed,
    type_not_found_reply, DependencyKey, DependencyNode,
};
use blockmatrix::dashboard::{
    dashboard_info_name, dashboard_info_reply, dashboard_list_reply, dashboard_not_found_reply,
    AccessView, DashboardListing, ManifestView,
};
use blockmatrix::gateway::{
    gateway_list, gateway_status, scope_transfer_request, transfer_pending_reply, BlockchainScope,
};
use blockmatrix::integration::{
    stoq_route_plan, ComponentIntegration, IntegrationConfig, IntegrationEvent, PrivacyTier,
};
use blockmatrix::json::JsonValue;
use sha2::{Digest, Sha256};
use blockmatrix::monitor::{success_rate_bp, ComponentCounters, MonitorCounters, SampleWindow, ThroughputWindow};
use blockmatrix::path_policy::{demand_summary, privacy_mode_for_action, FilterPrivacyMode, PrivacyAction};
use blockmatrix::protocol::{INTERNAL_ERROR, INVALID_PARAMS};
use blockmatrix::share_inbox::{
    accept_failed, accepted_reply, inbox_not_configured, invite_id_param, invite_not_found,
    rejected_reply, share_inbox_reply, AcceptStage, InviteSummary,
};
use blockmatrix::trust::{certs_reply, federation_reply, identity_reply, key_info, trust_status_reply, CertReading};
use blockmatrix::trust_adapter::{PeerTrustBand, SignalBand, TrustAdapter};
use blockmatrix::validation::{
    asset_pipeline_result, cross_component_result, e2e_result, e2e_test_sizes,
    network_coordinator_result, privacy_manager_result, stoq_transport_result, validation_names,
    E2EStage, IntegrationStep, ValidationResult, all_components_report,
};
use blockmatrix::workflows::{finish_batch, WorkflowError, WorkflowMetrics};

fn params(entries: Vec<(&str, JsonValue)>) -> JsonValue {
    JsonValue::Object(entries.into_iter().map(|(k, v)| (k.to_string(), v)).collect())
}

fn string(t: &str) -> JsonValue {
    JsonValue::Str(t.to_string())
}

fn at<'a>(v: &'a JsonValue, key: &str) -> &'a JsonValue {
    v.get(key).expect("member present")
}

fn items(v: &JsonValue) -> &Vec<JsonValue> {
    match v {
        JsonValue::Array(xs) => xs,
        _ => panic!("not an array"),
    }
}

// ---- catalog dependencies ----

#[test]
fn test_catalog_dependencies_no_registry_returns_alpha() {
    let r = dependencies_not_wired_reply();
    assert_eq!(at(&r, "status"), &string("alpha"));
    assert_eq!(at(&r, "note"), &string("catalog registry not wired"));
    assert_eq!(at(&r, "total"), &JsonValue::UInt(0));
}

#[test]
fn test_catalog_dependencies_invalid_params() {
    let e = dependency_key(&params(vec![])).unwrap_err();
    assert_eq!(e.code, INVALID_PARAMS);
    assert_eq!(e.message, "either 'type_hash' (hex) or 'type_name' (string) required");
}

#[test]
fn test_catalog_dependencies_invalid_hex_length() {
    let e = dependency_key(&params(vec![("type_hash", string("abcd"))])).unwrap_err();
    assert_eq!(e.message, "type_hash must be 64 hex chars (BLAKE3-256), got 4");
}

#[test]
fn test_catalog_dependencies_invalid_hex_chars() {
    let e = dependency_key(&params(vec![("type_hash", string(&"zz".repeat(32)))])).unwrap_err();
    assert!(e.message.starts_with("invalid hex in type_hash: "));
}

#[test]
fn test_catalog_dependencies_unknown_type_name() {
    match dependency_key(&params(vec![("type_name", string("nope/v1"))])).unwrap() {
        DependencyKey::Name(n) => assert_eq!(n, "nope/v1"),
        DependencyKey::Hash(_) => panic!("expected a name"),
    }
    let r = type_not_found_reply("nope/v1");
    assert_eq!(at(&r, "status"), &string("ok"));
    assert_eq!(at(&r, "note"), &string("type not found: nope/v1"));
}

#[test]
fn dependencies_reply_counts_direct_and_transitive() {
    let hash = vec![0x11u8; 32];
    match dependency_key(&params(vec![("type_hash", string(&"11".repeat(32))), ("type_name", string("x"))]))
        .unwrap()
    {
        DependencyKey::Hash(h) => assert_eq!(h, hash),
        DependencyKey::Name(_) => panic!("type_hash wins over type_name"),
    }
    let node = |n: &str, d: u64| DependencyNode {
        type_hash: vec![0x22; 32],
        name: n.to_string(),
        version: "1".to_string(),
        depth: d,
    };
    let r = dependencies_reply(&hash, &vec![node("a", 1)], &vec![node("b", 2), node("c", 2)], &vec![vec![0xff]]);
    assert_eq!(at(&r, "total"), &JsonValue::UInt(3));
    assert_eq!(items(at(&r, "missing"))[0], string("ff"));
    assert_eq!(at(&items(at(&r, "transitive_deps"))[1], "name"), &string("c"));
    assert_eq!(lookup_failed("x").message, "lookup failed: x");
    assert_eq!(resolve_failed("y").code, INTERNAL_ERROR);
}

// ---- asset list / info ----

fn row(index: u64, hash: Vec<u8>) -> AssetRow {
    AssetRow {
        block_index: index,
        block_hash: format!("b{index}"),
        content_hash: hash,
        category: "BaseSystem(Dns)".to_string(),
        scope: "Global".to_string(),
    }
}

#[test]
fn test_asset_list() {
    let r = asset_list_reply(&vec![row(0, vec![0xab]), row(1, vec![0xcd])]);
    assert_eq!(at(&r, "count"), &JsonValue::UInt(2));
    assert_eq!(at(&items(at(&r, "assets"))[1], "content_hash"), &string("cd"));
}

#[test]
fn test_asset_info_missing_param() {
    let e = asset_info_id(&params(vec![])).unwrap_err();
    assert_eq!(e.message, "missing 'asset_id' parameter");
}

#[test]
fn test_asset_info_not_found() {
    let r = asset_info_reply("ffff", &vec![row(0, vec![0xab, 0xcd])]);
    assert_eq!(at(&r, "found"), &JsonValue::Bool(false));
    assert!(r.get("entries").is_none());
}

#[test]
fn asset_info_matches_hash_fragments() {
    let rows = vec![row(0, vec![0xab, 0xcd]), row(1, vec![0x12, 0x34]), row(2, vec![0xbc, 0xd0])];
    let r = asset_info_reply("bcd", &rows);
    assert_eq!(at(&r, "found"), &JsonValue::Bool(true));
    let es = items(at(&r, "entries"));
    assert_eq!(es.len(), 2);
    assert_eq!(at(&es[0], "block_hash"), &string("b0"));
    assert_eq!(at(&es[1], "block_index"), &JsonValue::UInt(2));
}

// ---- dashboards ----

#[test]
fn test_dashboard_list_empty() {
    let r = dashboard_list_reply(&vec![]);
    assert_eq!(at(&r, "count"), &JsonValue::UInt(0));
    let listings = vec![
        DashboardListing::Manifest(ManifestView {
            name: "ops".to_string(),
            version: "1.0".to_string(),
            domain: "ops.mesh".to_string(),
            description: string("panel"),
        }),
        DashboardListing::Unparsed("broken".to_string()),
    ];
    let r = dashboard_list_reply(&listings);
    assert_eq!(at(&r, "count"), &JsonValue::UInt(2));
    assert_eq!(at(&items(at(&r, "dashboards"))[1], "error"), &string("failed to parse manifest"));
}

#[test]
fn test_dashboard_info_missing_param() {
    assert_eq!(dashboard_info_name(&params(vec![])).unwrap_err().message, "missing 'name' parameter");
}

#[test]
fn test_dashboard_info_not_found() {
    let r = dashboard_not_found_reply("ghost");
    assert_eq!(at(&r, "found"), &JsonValue::Bool(false));
    let m = ManifestView {
        name: "ops".to_string(),
        version: "1.0".to_string(),
        domain: "ops.mesh".to_string(),
        description: JsonValue::Null,
    };
    let access = AccessView {
        public: JsonValue::Array(vec![]),
        private: JsonValue::Array(vec![string("alice")]),
        admin: JsonValue::Array(vec![]),
    };
    let r = dashboard_info_reply(&m, 3, &access);
    assert_eq!(at(&r, "files"), &JsonValue::UInt(3));
    assert_eq!(items(at(at(&r, "access"), "private")).len(), 1);
}

// ---- gateway ----

#[test]
fn test_gateway_status_handler() {
    let r = gateway_status(&params(vec![("transfer_id", string("t-9"))])).unwrap();
    assert_eq!(at(&r, "status"), &string("not_found"));
    assert_eq!(at(&r, "transfer_id"), &string("t-9"));
}

#[test]
fn test_gateway_status_missing_param() {
    let e = gateway_status(&params(vec![])).unwrap_err();
    assert_eq!(e.message, "missing or invalid 'transfer_id' parameter");
}

#[test]
fn test_gateway_list_handler() {
    let r = gateway_list();
    assert_eq!(at(&r, "count"), &JsonValue::UInt(0));
    assert!(items(at(&r, "transfers")).is_empty());
}

#[test]
fn test_gateway_transfer_missing_params() {
    let e = scope_transfer_request(&params(vec![])).unwrap_err();
    assert_eq!(e.message, "missing or invalid 'asset_id' parameter");
    let e = scope_transfer_request(&params(vec![("asset_id", string("a"))])).unwrap_err();
    assert_eq!(e.message, "missing or invalid 'source_scope' parameter");
    let e = scope_transfer_request(&params(vec![("asset_id", string("a")), ("source_scope", string("device"))]))
        .unwrap_err();
    assert_eq!(e.message, "missing or invalid 'target_scope' parameter");
}

#[test]
fn test_gateway_transfer_invalid_scope() {
    let e = scope_transfer_request(&params(vec![
        ("asset_id", string("a")),
        ("source_scope", string("planet")),
        ("target_scope", string("network")),
    ]))
    .unwrap_err();
    assert_eq!(e.message, "invalid scope 'planet': expected 'device' or 'network'");
}

#[test]
fn test_gateway_transfer_handler() {
    let (asset, from, to) = scope_transfer_request(&params(vec![
        ("asset_id", string("asset-1")),
        ("source_scope", string("Device")),
        ("target_scope", string("NETWORK")),
    ]))
    .unwrap();
    assert_eq!(asset, "asset-1");
    assert_eq!(from, BlockchainScope::Device);
    assert_eq!(to, BlockchainScope::Network);
    assert_eq!(at(&transfer_pending_reply("t-1"), "status"), &string("pending"));
}

// ---- share inbox ----

fn invite(id: &str) -> InviteSummary {
    InviteSummary {
        invite_id: id.to_string(),
        asset_id: "asset".to_string(),
        asset_name: "file".to_string(),
        asset_size: 10,
        shard_count: 2,
        sender_node_id: "n".to_string(),
        sender_name: "alice".to_string(),
        encrypted: true,
        created_at: 5,
    }
}

#[test]
fn test_share_inbox_empty_without_store() {
    let r = share_inbox_reply(&params(vec![]), None);
    assert_eq!(at(&r, "count"), &JsonValue::UInt(0));
    assert_eq!(at(&r, "limit"), &JsonValue::UInt(50));
}

#[test]
fn share_inbox_limits_listing_but_counts_all() {
    let all = vec![invite("a"), invite("b"), invite("c")];
    let r = share_inbox_reply(&params(vec![("limit", JsonValue::UInt(2))]), Some(&all));
    assert_eq!(at(&r, "count"), &JsonValue::UInt(3));
    assert_eq!(items(at(&r, "invites")).len(), 2);
    assert_eq!(at(&items(at(&r, "invites"))[1], "invite_id"), &string("b"));
}

#[test]
fn test_share_accept_missing_invite_id() {
    let e = invite_id_param(&params(vec![])).unwrap_err();
    assert_eq!(e.message, "missing or invalid 'invite_id' parameter");
    assert_eq!(inbox_not_configured().code, INTERNAL_ERROR);
    assert_eq!(invite_not_found("inv-1").message, "invite inv-1 not found");
    assert_eq!(
        accept_failed(AcceptStage::UnwrapKey, "bad").message,
        "failed to unwrap key (are you the intended recipient?): bad"
    );
    let r = accepted_reply("inv-1", "asset", 2, true, "/m.json");
    assert_eq!(at(&r, "status"), &string("accepted"));
}

#[test]
fn test_share_reject_missing_invite_id() {
    assert!(invite_id_param(&params(vec![("invite_id", JsonValue::UInt(1))])).is_err());
    let r = rejected_reply("inv-1", false);
    assert_eq!(at(&r, "removed"), &JsonValue::Bool(false));
    assert_eq!(at(&r, "status"), &string("rejected"));
}

// ---- trustchain ----

#[test]
fn test_trustchain_status_returns_json() {
    let r = trust_status_reply("n", false, true);
    assert_eq!(at(&r, "ca_phase"), &string("bootstrap_self_signed"));
    let r = trust_status_reply("n", true, true);
    assert_eq!(at(&r, "ca_phase"), &string("bootstrap_with_keys"));
    assert_eq!(at(&r, "signing_algorithm"), &string("FALCON-1024"));
}

#[test]
fn test_trustchain_certs_missing_cert_returns_empty() {
    let r = certs_reply("n", CertReading::Missing);
    assert_eq!(at(&r, "total"), &JsonValue::UInt(0));
    assert!(r.get("error").is_none());
}

#[test]
fn test_trustchain_certs_corrupt_returns_empty_with_error() {
    let r = certs_reply("n", CertReading::Unparseable("bad DER".to_string()));
    assert_eq!(at(&r, "total"), &JsonValue::UInt(0));
    assert_eq!(at(&r, "error"), &string("bad DER"));
    let r = certs_reply("n", CertReading::Parsed(string("cert")));
    assert_eq!(at(&r, "total"), &JsonValue::UInt(1));
}

#[test]
fn test_trustchain_identity_returns_json() {
    let r = identity_reply("n", None, Some(&[1, 2, 3]), None, "Private");
    assert_eq!(at(at(&r, "falcon"), "present"), &JsonValue::Bool(false));
    assert_eq!(at(at(&r, "falcon"), "fingerprint"), &JsonValue::Null);
    assert_eq!(at(at(&r, "kyber"), "bytes"), &JsonValue::UInt(3));
    assert_eq!(at(&r, "created_at"), &JsonValue::Null);
    let k = key_info(Some(b"key"), "Kyber-1024");
    assert_eq!(at(&k, "fingerprint"), &string(&blake3::hash(b"key").to_hex().to_string()));
    let r = identity_reply("n", None, None, Some(1700000000), "Private");
    assert_eq!(at(&r, "created_at"), &JsonValue::UInt(1700000000));
}

#[test]
fn test_trustchain_federation_keys() {
    let r = federation_reply("n", 4);
    assert_eq!(at(&r, "network_peers"), &JsonValue::UInt(4));
    assert_eq!(at(at(&r, "trust_levels"), "full"), &JsonValue::UInt(0));
}

// ---- trust adapter ----

#[test]
fn returns_none_for_unknown_peer() {
    let a = TrustAdapter::new();
    assert_eq!(a.trust_band_for(&[0xCD; 32]), None);
}

#[test]
fn returns_full_for_high_signals() {
    let mut a = TrustAdapter::new();
    a.upsert(&[0xAB; 32], SignalBand::Full);
    assert_eq!(a.trust_band_for(&[0xAB; 32]), Some(PeerTrustBand::Full));
}

#[test]
fn returns_conditional_for_speculative_traffic() {
    let mut a = TrustAdapter::new();
    a.upsert(&[0xEE; 32], SignalBand::Full);
    a.upsert(&[0xEE; 32], SignalBand::Conditional);
    assert_eq!(a.trust_band_for(&[0xEE; 32]), Some(PeerTrustBand::Conditional));
}

#[test]
fn untrusted_peers_stay_conditional_and_can_be_forgotten() {
    let mut a = TrustAdapter::new();
    a.upsert(&[1; 32], SignalBand::Untrusted);
    a.upsert(&[2; 32], SignalBand::Full);
    assert_eq!(a.trust_band_for(&[1; 32]), Some(PeerTrustBand::Conditional));
    a.forget(&[1; 32]);
    assert_eq!(a.trust_band_for(&[1; 32]), None);
    assert_eq!(a.trust_band_for(&[2; 32]), Some(PeerTrustBand::Full));
}

// ---- monitor counters ----

#[test]
fn test_performance_monitor() {
    let mut monitor = MonitorCounters::new(true);
    for i in 0..10u64 {
        monitor.record_operation("test_component", 50 + i * 10, Some(1024 * (i + 1)), true, i);
    }
    monitor.record_memory(2048);
    assert_eq!(monitor.total_operations, 10);
    assert_eq!(monitor.component("test_component").unwrap().operations, 10);
    assert_eq!(monitor.memory_usage_mb, 2048);
}

#[test]
fn monitor_component_counters() {
    let mut m = MonitorCounters::new(true);
    m.record_operation("pipeline", 100, Some(4096), true, 10);
    m.record_operation("pipeline", 50, None, false, 11);
    m.record_operation("storage", 7, Some(4), true, 12);
    assert_eq!(m.total_operations, 3);
    assert_eq!(m.total_bytes_processed, 4100);
    let c = m.component("pipeline").unwrap();
    assert_eq!(c.operations, 2);
    assert_eq!(c.errors, 1);
    assert_eq!(c.avg_latency_ms, 75);
    assert_eq!(c.last_operation_secs, 11);
    assert_eq!(success_rate_bp(c), 5000);
    assert!(m.component("other").is_none());
    m.reset();
    assert_eq!(m.total_operations, 0);
    assert!(m.component("pipeline").is_none());
}

#[test]
fn test_collector_record_processing() {
    let mut m = MonitorCounters::new(true);
    m.record_operation("pipeline", 42, Some(4096), true, 1);
    assert_eq!(m.total_operations, 1);
    assert_eq!(m.total_bytes_processed, 4096);
}

#[test]
fn test_collector_sample_hardware() {
    let mut m = MonitorCounters::new(true);
    m.record_memory(512);
    assert_eq!(m.memory_usage_mb, 512);
    assert_eq!(m.total_operations, 0);
}

#[test]
fn disabled_monitor_records_nothing() {
    let mut m = MonitorCounters::new(false);
    m.record_operation("x", 1, Some(1), true, 1);
    m.record_memory(9);
    assert_eq!(m.total_operations, 0);
    assert_eq!(m.memory_usage_mb, 0);
    let fresh = ComponentCounters { operations: 0, avg_latency_ms: 0, errors: 0, last_operation_secs: 0 };
    assert_eq!(success_rate_bp(fresh), 0);
}

// ---- analytics feedback ----

#[test]
fn privacy_actions_map_to_modes() {
    assert_eq!(privacy_mode_for_action(PrivacyAction::Tighten), Some(FilterPrivacyMode::Private));
    assert_eq!(privacy_mode_for_action(PrivacyAction::Relax), Some(FilterPrivacyMode::Public));
    assert_eq!(privacy_mode_for_action(PrivacyAction::NoChange), None);
}

#[test]
fn demand_summary_shape() {
    let r = demand_summary(&[0xab, 0x01], 7, 3, 99);
    assert_eq!(at(&r, "shard_hash"), &string("ab01"));
    assert_eq!(at(&r, "unique_consumers"), &JsonValue::UInt(3));
}

// ---- batch runs ----

#[test]
fn test_asset_workflow_batch_processing() {
    let mut m = WorkflowMetrics::default();
    let ok: Vec<Result<u32, WorkflowError>> = vec![Ok(1), Ok(2), Ok(3)];
    assert_eq!(finish_batch(&mut m, 40, ok).unwrap(), vec![1, 2, 3]);
    assert_eq!(m.total_executions, 1);
    assert_eq!(m.successful_executions, 1);
    let mixed: Vec<Result<u32, WorkflowError>> = vec![
        Ok(1),
        Err(WorkflowError::Timeout("Processing timeout".to_string())),
        Err(WorkflowError::PipelineFailed("bad".to_string())),
    ];
    let e = finish_batch(&mut m, 20, mixed).unwrap_err();
    assert_eq!(e.message(), "Workflow error: Batch processing failed with 2 errors");
    assert_eq!(m.failed_executions, 1);
    assert_eq!(m.avg_execution_time_ms, 30);
}

// ---- storage across networks, transport routes ----

#[test]
fn storage_network_addresses_and_event() {
    let mut integration = ComponentIntegration::new(IntegrationConfig::default());
    let networks = vec!["net-a".to_string(), "net-b".to_string()];
    let addrs = integration.integrate_storage_network("asset-1", &networks, 5);
    assert_eq!(addrs.len(), 2);
    let expected = Sha256::digest(b"asset-1").to_vec();
    assert_eq!(addrs[0], expected);
    assert_eq!(addrs[1], expected);
    let events = integration.drain_events();
    assert_eq!(events.len(), 1);
    match &events[0] {
        IntegrationEvent::CrossNetworkValidation { asset_id, networks: ns, result } => {
            assert_eq!(asset_id, "asset-1");
            assert_eq!(ns, &networks);
            assert!(*result);
        },
        other => panic!("unexpected event {other:?}"),
    }
    assert!(integration.drain_events().is_empty());
    assert_eq!(integration.get_health(0).metrics.total_calls, 1);
}

#[test]
fn stoq_routes_are_named_after_the_destination() {
    let plan = stoq_route_plan((0, 0, 0), (3, -4, 5), PrivacyTier::Federated);
    assert_eq!(plan.path, vec![(0, 0, 0), (3, -4, 5)]);
    assert_eq!(plan.port, 9292);
    assert_eq!(plan.server_name, "matrix://[3:-4:5]");
    assert_eq!(plan.tier, PrivacyTier::Federated);
}

// ---- component validations ----

fn passed_message(r: &ValidationResult) -> &str {
    match r {
        ValidationResult::Passed { message, .. } => message,
        other => panic!("expected a pass, got {other:?}"),
    }
}

fn failure(r: &ValidationResult) -> (&str, &Vec<String>) {
    match r {
        ValidationResult::Failed { reason, details } => (reason, details),
        other => panic!("expected a failure, got {other:?}"),
    }
}

#[test]
fn component_validation_messages() {
    assert_eq!(validation_names().len(), 8);
    assert_eq!(
        passed_message(&stoq_transport_result(2, 5, 1)),
        "STOQ transport operational: 2 active connections, 5 total"
    );
    assert_eq!(passed_message(&stoq_transport_result(0, 0, 1)), "STOQ transport initialized and ready");
    assert_eq!(passed_message(&privacy_manager_result(Ok(()), 1)), "Privacy manager access control working");
    let r = privacy_manager_result(Err("denied".to_string()), 1);
    assert_eq!(failure(&r), ("Privacy manager validation failed", &vec!["denied".to_string()]));
    assert_eq!(passed_message(&network_coordinator_result(Ok(3), 1)), "Network coordinator managing 3 networks");
    assert_eq!(failure(&asset_pipeline_result(Ok(0), 1)).0, "Pipeline produced no shards");
    assert!(failure(&asset_pipeline_result(Ok(0), 1)).1.is_empty());
    assert_eq!(passed_message(&asset_pipeline_result(Ok(14), 1)), "Pipeline produced 14 shards");
}

#[test]
fn cross_component_and_e2e_validations() {
    let r = cross_component_result(Some((IntegrationStep::Storage, "disk full".to_string())), 1);
    assert_eq!(failure(&r).0, "Storage integration failed");
    assert_eq!(
        passed_message(&cross_component_result(None, 1)),
        "Cross-component integration validated successfully"
    );
    let sizes = e2e_test_sizes();
    assert_eq!(sizes[2], (10485760, "10MB"));
    let r = e2e_result(Some((E2EStage::Retrieval, "1MB", "missing shard".to_string())), 1);
    assert_eq!(failure(&r).0, "E2E retrieval failed for 1MB");
    assert_eq!(passed_message(&e2e_result(None, 1)), "E2E workflows validated for multiple asset sizes");
}

// ---- windows ----

#[test]
fn test_throughput_tracker() {
    let mut tracker = ThroughputWindow::new(1000);
    for i in 0..10u64 {
        tracker.record_operation(5000 + i, Some(1024));
    }
    assert_eq!(tracker.total_ops, 10);
    assert_eq!(tracker.total_bytes, 10240);
    assert_eq!(tracker.ops_in_window(), 10);
    tracker.record_operation(7000, None);
    assert_eq!(tracker.ops_in_window(), 1);
    assert_eq!(tracker.bytes_in_window(), 0);
    assert_eq!(tracker.total_ops, 11);
}

#[test]
fn sample_window_keeps_the_latest() {
    let mut w = SampleWindow::new(3);
    assert_eq!(w.average(), 0);
    for v in [10, 20, 30, 40] {
        w.record(v);
    }
    assert_eq!(w.samples, std::collections::VecDeque::from(vec![20, 30, 40]));
    assert_eq!(w.average(), 30);
    let mut z = SampleWindow::new(0);
    z.record(5);
    z.record(7);
    assert_eq!(z.samples, std::collections::VecDeque::from(vec![7]));
}

#[test]
fn full_validation_report() {
    let pass = || ValidationResult::Passed { message: "ok".to_string(), duration_ms: 1 };
    let r = all_components_report(
        "run-1".to_string(),
        42,
        pass(),
        pass(),
        ValidationResult::Failed { reason: "down".to_string(), details: vec![] },
        pass(),
        ValidationResult::Skipped { reason: "n/a".to_string() },
        pass(),
        pass(),
        pass(),
    );
    assert_eq!(r.total_validations, 8);
    assert_eq!((r.passed, r.failed, r.skipped), (6, 1, 1));
    assert!(!r.success);
    assert_eq!(r.results[2].0, "network_coordinator");
    assert_eq!(r.component_status[7], ("performance".to_string(), true));
    assert!(r.performance.meets_targets);
    assert_eq!(r.performance.deduplication_rate_bp, 9200);
}
