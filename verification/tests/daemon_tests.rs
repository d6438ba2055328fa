use blockmatrix::auth::{
    auth_not_configured, create_session_request, revoke_session_id, revoked_reply, sessions_reply,
    SessionRecord, SessionRegistry,
};
use blockmatrix::caesar::{
    caesar_balance_unavailable, caesar_overview_unavailable, caesar_rewards_unavailable,
    caesar_staking_unavailable, caesar_transactions_unavailable, CaesarUnavailable,
};
use blockmatrix::capability::Capability;
use blockmatrix::chain::{
    block_index_param, block_reply, height_reply, receipt_reply, transfer_id_param, validate_reply,
    BlockSummary, CrossReceipt,
};
use blockmatrix::dns::{
    dns_list_reply, dns_reserved_reply, dns_resolve_name, dns_resolve_reply,
    foundation_grant_request, grant_reply,
};
use blockmatrix::domain::{
    domain_asset_data, domain_join_name, domain_join_reply, domain_list_reply,
    domain_registered_reply, prepare_domain_register, privacy_from_label, DomainPrivacy, DomainRow,
};
use blockmatrix::handler::{CapabilityContext, RequestHandler};
use blockmatrix::json::JsonValue;
use blockmatrix::message::{
    handle_message_history, handle_message_inbox, handle_message_read, message_send_params,
    message_sent_reply,
};
use blockmatrix::methods::{daemon_methods, register_all};
use blockmatrix::network::{
    connect_reply, identity_pubkey_reply, key_read_failed, name_lookup_refused, no_network_error,
    peer_lookup_key, peer_not_found, peer_pubkey_reply, peers_reply, rotate_reply, short_id,
    AuthenticatedPeer, PeerLookup, PeerSummary,
};
use blockmatrix::protocol::{INTERNAL_ERROR, INVALID_PARAMS, METHOD_NOT_FOUND};
use blockmatrix::shard::{
    bytes_eq, covers_shard, fetch_order, local_shard_reply, merge_providers, network_shard_reply,
    parse_shard_id, registration_verdict, shard_content_ok, shard_fetch_request, shard_not_found,
    RegistrationVerdict,
};
use blockmatrix::status::{
    engauge_capacity_reply, engauge_routing_reply, engauge_throttle_reply, engauge_traffic_reply,
    intelligence_stats_reply, node_status_reply, ping_reply, shutdown_reply, stoq_connections_reply,
    stoq_performance_reply, stoq_stats_reply, unique_endpoints, AnalyticsFlags, NodeFacts,
    TransportFacts,
};
use blockmatrix::store::{
    asset_hash_from_id, distribution_report, no_network_distribution, node_private_fingerprint,
    read_failed, shard_hashes, stage_error, store_config, store_path, store_reply, stores_in_clear,
    StoreOutcome, StoreStage,
};
use blockmatrix::topology::{coordinate_params, invalid_coordinate, path_reply, topology_info_reply};
use blockmatrix::auth::{issue_failed, token_reply, TokenView};
use blockmatrix::catalog::local_search_failed;
use blockmatrix::dashboard::{chain_write_failed, persist_failed};
use blockmatrix::dns::{grant_serialize_failed, grant_sign_failed};
use blockmatrix::domain::proof_generation_failed;
use blockmatrix::gateway::state_proof_failed;
use blockmatrix::store::onchain_registration_failed;
use blockmatrix::system::{applied_reply, ReleaseChannel, ReleaseEntry, UpdateRequest};
use blockmatrix::validation::ValidationResult;

fn jobj(entries: Vec<(&str, JsonValue)>) -> JsonValue {
    JsonValue::Object(entries.into_iter().map(|(k, v)| (k.to_string(), v)).collect())
}

fn text(t: &str) -> JsonValue {
    JsonValue::Str(t.to_string())
}

fn field<'a>(v: &'a JsonValue, key: &str) -> &'a JsonValue {
    v.get(key).expect("member present")
}

fn arr_len(v: &JsonValue) -> usize {
    match v {
        JsonValue::Array(items) => items.len(),
        _ => panic!("not an array"),
    }
}

fn flags() -> AnalyticsFlags {
    AnalyticsFlags { intelligence_enabled: false, bridge_attached: false }
}

// ---- message ----

#[test]
fn test_message_send_params() {
    let ok = message_send_params(&jobj(vec![("recipient", text("peer-xyz")), ("body", text("Hello!"))]))
        .expect("valid send");
    assert_eq!(ok.recipient, "peer-xyz");
    assert_eq!(ok.body_len, 6);
    assert_eq!(ok.content_type, "text/plain");
    assert!(ok.reply_to.is_none());
    let reply = message_sent_reply(&ok, "peer-xyz", "msg-1234");
    assert_eq!(field(&reply, "status"), &text("created"));
    assert_eq!(field(&reply, "body_length"), &JsonValue::UInt(6));
    assert!(field(&reply, "message_id").as_str().unwrap().starts_with("msg-"));

    let e = message_send_params(&jobj(vec![("body", text("hi"))])).unwrap_err();
    assert!(e.message.contains("recipient"));
    let e = message_send_params(&jobj(vec![("recipient", text("peer"))])).unwrap_err();
    assert!(e.message.contains("body"));
}

#[test]
fn message_send_counts_body_in_bytes_and_keeps_reply_to() {
    let p = message_send_params(&jobj(vec![
        ("recipient", text("bob")),
        ("body", text("héllo")),
        ("content_type", text("text/markdown")),
        ("reply_to", text("msg-parent")),
    ]))
    .unwrap();
    assert_eq!(p.body_len, 6);
    assert_eq!(p.content_type, "text/markdown");
    assert_eq!(p.reply_to.as_deref(), Some("msg-parent"));
}

#[test]
fn test_message_inbox_empty() {
    let r = handle_message_inbox(&jobj(vec![]));
    assert_eq!(field(&r, "count"), &JsonValue::UInt(0));
    assert_eq!(arr_len(field(&r, "messages")), 0);
    assert_eq!(field(&r, "limit"), &JsonValue::UInt(20));
    let r = handle_message_inbox(&jobj(vec![("limit", JsonValue::UInt(5))]));
    assert_eq!(field(&r, "limit"), &JsonValue::UInt(5));
}

#[test]
fn test_message_history_params() {
    let r = handle_message_history(&jobj(vec![("peer", text("alice")), ("limit", JsonValue::UInt(10))]))
        .unwrap();
    assert_eq!(field(&r, "peer"), &text("alice"));
    assert_eq!(field(&r, "limit"), &JsonValue::UInt(10));
    let r = handle_message_history(&jobj(vec![("peer", text("alice"))])).unwrap();
    assert_eq!(field(&r, "limit"), &JsonValue::UInt(50));
    let e = handle_message_history(&jobj(vec![])).unwrap_err();
    assert!(e.message.contains("peer"));
    assert_eq!(e.code, INVALID_PARAMS);
}

#[test]
fn test_message_read_params() {
    let r = handle_message_read(&jobj(vec![("message_id", text("msg-abc123"))])).unwrap();
    assert_eq!(field(&r, "message_id"), &text("msg-abc123"));
    assert_eq!(field(&r, "status"), &text("not_found"));
    let e = handle_message_read(&jobj(vec![])).unwrap_err();
    assert!(e.message.contains("message_id"));
}

// ---- dns ----

#[test]
fn test_dns_resolve_not_found() {
    let name = dns_resolve_name(&jobj(vec![("name", text("nonexistent"))])).unwrap();
    let r = dns_resolve_reply(&name, None);
    assert_eq!(field(&r, "address"), &JsonValue::Null);
    assert_eq!(field(&r, "error"), &text("not found"));
}

#[test]
fn test_dns_resolve_found() {
    let r = dns_resolve_reply("mynode", Some("::1"));
    assert_eq!(field(&r, "address"), &text("::1"));
    assert!(r.get("error").is_none());
}

#[test]
fn dns_resolve_requires_name() {
    let e = dns_resolve_name(&jobj(vec![])).unwrap_err();
    assert_eq!(e.message, "missing 'name' parameter");
}

#[test]
fn test_dns_list_empty() {
    let r = dns_list_reply(&vec![]);
    assert_eq!(field(&r, "count"), &JsonValue::UInt(0));
    let r = dns_list_reply(&vec![("localhost".to_string(), "::1".to_string())]);
    assert_eq!(field(&r, "count"), &JsonValue::UInt(1));
    match field(&r, "records") {
        JsonValue::Array(items) => assert_eq!(field(&items[0], "name"), &text("localhost")),
        _ => panic!("records must be an array"),
    }
}

#[test]
fn dns_reserved_lists_domains() {
    let r = dns_reserved_reply(&vec!["hypermesh".to_string(), "trustchain".to_string()]);
    assert_eq!(field(&r, "count"), &JsonValue::UInt(2));
}

#[test]
fn foundation_grant_checks_in_order() {
    let params = jobj(vec![
        ("domain", text("hypermesh")),
        ("recipient_pubkey", text("abcd")),
        ("valid_until_secs", JsonValue::UInt(100)),
    ]);
    let e = foundation_grant_request(&params, false, true).unwrap_err();
    assert_eq!(e.code, INTERNAL_ERROR);
    assert_eq!(e.message, "foundation root key not configured (alpha-default inert)");
    let e = foundation_grant_request(&params, true, false).unwrap_err();
    assert_eq!(e.message, "domain 'hypermesh' is not on the foundation reserved list");
    let g = foundation_grant_request(&params, true, true).unwrap();
    assert_eq!(g.recipient_pubkey, vec![0xab, 0xcd]);
    assert_eq!(g.valid_until_secs, 100);
    assert_eq!(g.dues_paid_until_secs, 100);
    let bad = jobj(vec![("domain", text("hypermesh")), ("recipient_pubkey", text("zz"))]);
    let e = foundation_grant_request(&bad, true, true).unwrap_err();
    assert!(e.message.starts_with("recipient_pubkey hex decode failed: "));
    let no_valid = jobj(vec![("domain", text("hypermesh")), ("recipient_pubkey", text("00"))]);
    let e = foundation_grant_request(&no_valid, true, true).unwrap_err();
    assert_eq!(e.message, "missing 'valid_until_secs' parameter");
    let r = grant_reply(jobj(vec![]), "hypermesh", 7, &[1, 2]);
    assert_eq!(field(&r, "foundation_pubkey"), &text("0102"));
    assert_eq!(field(&r, "typedef"), &text("foundation.dns_grant/v1"));
}

// ---- domain ----

#[test]
fn test_domain_register() {
    let plan = prepare_domain_register(
        &jobj(vec![("name", text("test.hypermesh")), ("privacy", text("Private"))]),
        &vec![],
    )
    .unwrap();
    assert_eq!(plan.name, "test.hypermesh");
    assert_eq!(plan.privacy, DomainPrivacy::Private);
    let r = domain_registered_reply(&plan.name, "net-1", &plan.privacy_label, "node", 3);
    assert_eq!(field(&r, "domain"), &text("test.hypermesh"));
    assert_eq!(field(&r, "status"), &text("registered"));
}

#[test]
fn domain_register_refuses_duplicates() {
    let e = prepare_domain_register(
        &jobj(vec![("name", text("a.mesh"))]),
        &vec!["a.mesh".to_string()],
    )
    .unwrap_err();
    assert_eq!(e.message, "domain 'a.mesh' already registered");
    assert_eq!(privacy_from_label("Public"), DomainPrivacy::Public);
    assert_eq!(privacy_from_label("Anonymous"), DomainPrivacy::Anonymous);
    assert_eq!(privacy_from_label("public"), DomainPrivacy::Private);
    let (config, definition, metadata) = domain_asset_data("a.mesh", "n1", "Public");
    assert_eq!(config, b"DOMAIN:REGISTER:a.mesh".to_vec());
    assert_eq!(definition, b"domain-registration:a.mesh".to_vec());
    assert_eq!(metadata, b"network_id=n1,privacy=Public".to_vec());
}

#[test]
fn test_domain_list_empty() {
    let r = domain_list_reply(&vec![]);
    assert_eq!(field(&r, "count"), &JsonValue::UInt(0));
    let r = domain_list_reply(&vec![DomainRow {
        domain: "a".to_string(),
        network_id: "n".to_string(),
        owner: "o".to_string(),
        privacy: "PRIVATE".to_string(),
    }]);
    assert_eq!(field(&r, "count"), &JsonValue::UInt(1));
}

#[test]
fn test_domain_join() {
    let d = domain_join_name(&jobj(vec![("domain", text("my.domain"))])).unwrap();
    let r = domain_join_reply(&d, "net", "node");
    assert_eq!(field(&r, "domain"), &text("my.domain"));
    assert_eq!(field(&r, "status"), &text("join_recorded"));
    assert!(domain_join_name(&jobj(vec![])).is_err());
}

// ---- chain ----

#[test]
fn test_blockchain_height() {
    assert_eq!(field(&height_reply(4), "height"), &JsonValue::UInt(4));
}

#[test]
fn test_blockchain_block_genesis() {
    let idx = block_index_param(&jobj(vec![("index", JsonValue::UInt(0))])).unwrap();
    let b = BlockSummary { index: 0, hash: "h0".to_string(), previous_hash: "".to_string(), asset_count: 0 };
    let r = block_reply(idx, Some(&b));
    assert_eq!(field(&r, "index"), &JsonValue::UInt(0));
    assert_eq!(field(&r, "hash"), &text("h0"));
    let r = block_reply(9, None);
    assert_eq!(field(&r, "error"), &text("block not found"));
    let e = block_index_param(&jobj(vec![("index", text("0"))])).unwrap_err();
    assert_eq!(e.message, "missing or invalid 'index' parameter");
}

#[test]
fn test_blockchain_validate() {
    let r = validate_reply(true, 2);
    assert_eq!(field(&r, "valid"), &JsonValue::Bool(true));
    assert_eq!(field(&r, "height"), &JsonValue::UInt(2));
}

#[test]
fn test_lookup_cross_receipt_missing() {
    let id = transfer_id_param(&jobj(vec![("transfer_id", text("t-1"))])).unwrap();
    let r = receipt_reply(&id, None);
    assert_eq!(field(&r, "found"), &JsonValue::Bool(false));
    assert_eq!(field(&r, "transfer_id"), &text("t-1"));
    assert!(transfer_id_param(&jobj(vec![])).is_err());
}

#[test]
fn test_lookup_cross_receipt_found() {
    let c = CrossReceipt {
        transfer_id: "t-1".to_string(),
        source_chain_id: "a".to_string(),
        source_block_hash: "ha".to_string(),
        target_chain_id: "b".to_string(),
        target_block_hash: "hb".to_string(),
        completed_at: 5,
        asset_id: "asset".to_string(),
    };
    let r = receipt_reply("t-1", Some(&c));
    assert_eq!(field(&r, "found"), &JsonValue::Bool(true));
    assert_eq!(field(&r, "target_chain_id"), &text("b"));
}

// ---- network ----

#[test]
fn test_network_peers_no_network() {
    let r = peers_reply(None);
    assert_eq!(field(&r, "count"), &JsonValue::UInt(0));
    assert_eq!(field(&r, "note"), &text("no network manager (private mode)"));
    let peers = vec![PeerSummary { node_id: "n".to_string(), address: "[::1]:9".to_string(), coordinate: (1, -2, 3) }];
    let r = peers_reply(Some(&peers));
    assert_eq!(field(&r, "count"), &JsonValue::UInt(1));
    match field(&r, "peers") {
        JsonValue::Array(items) => {
            let c = field(&items[0], "coordinate");
            assert_eq!(field(c, "y"), &JsonValue::NegInt(-2));
            assert_eq!(field(c, "z"), &JsonValue::UInt(3));
        },
        _ => panic!("peers must be an array"),
    }
}

#[test]
fn test_network_connect_no_network() {
    assert_eq!(field(&connect_reply(false), "status"), &text("unavailable"));
    assert_eq!(field(&connect_reply(true), "status"), &text("connection_requested"));
}

#[test]
fn identity_rotate_defaults_reason() {
    let r = rotate_reply(&jobj(vec![]), "node");
    assert_eq!(field(&r, "reason"), &text("scheduled"));
    let r = rotate_reply(&jobj(vec![("reason", text("compromise"))]), "node");
    assert_eq!(field(&r, "reason"), &text("compromise"));
}

#[test]
fn test_identity_pubkey_with_keys() {
    let r = identity_pubkey_reply("node", &[0xde, 0xad], &[1, 2, 3]);
    assert_eq!(field(&r, "falcon_pubkey"), &text("dead"));
    assert_eq!(field(&r, "kyber_pubkey_bytes"), &JsonValue::UInt(3));
}

#[test]
fn test_identity_pubkey_no_keys() {
    let e = key_read_failed("FALCON", "/x/falcon_pubkey.der", "No such file");
    assert_eq!(e.code, INTERNAL_ERROR);
    assert_eq!(e.message, "failed to read FALCON public key from /x/falcon_pubkey.der: No such file");
}

#[test]
fn test_peer_pubkey_missing_params() {
    let e = peer_lookup_key(&jobj(vec![])).unwrap_err();
    assert_eq!(e.message, "provide either 'node_id' or 'name' parameter");
    assert!(matches!(
        peer_lookup_key(&jobj(vec![("node_id", text("abc")), ("name", text("x"))])).unwrap(),
        PeerLookup::NodeId(ref s) if s == "abc"
    ));
    assert!(matches!(
        peer_lookup_key(&jobj(vec![("name", text("x"))])).unwrap(),
        PeerLookup::Name(ref s) if s == "x"
    ));
    assert_eq!(name_lookup_refused("x", false).message, "DNS name 'x' not found");
    assert!(name_lookup_refused("x", true).message.contains("use node_id directly"));
}

#[test]
fn test_peer_pubkey_no_network() {
    let e = no_network_error();
    assert_eq!(e.code, INTERNAL_ERROR);
    assert_eq!(e.message, "no network manager (private mode)");
}

#[test]
fn peer_pubkey_reply_and_short_ids() {
    let p = AuthenticatedPeer {
        node_id: "abcdef0123456789".to_string(),
        pubkey: vec![0xff],
        coordinate: (0, 0, 0),
        network_id: "net".to_string(),
    };
    let r = peer_pubkey_reply(&p);
    assert_eq!(field(&r, "falcon_pubkey"), &text("ff"));
    assert_eq!(short_id("abcdef0123456789"), "abcdef01");
    assert_eq!(short_id("abc"), "abc");
    assert_eq!(
        peer_not_found("abcdef0123456789").message,
        "peer 'abcdef01...' not found in authenticated peers"
    );
}

// ---- topology ----

#[test]
fn test_topology_info() {
    let r = topology_info_reply("topo-test", (1, 2, 3));
    assert_eq!(field(&r, "node_id"), &text("topo-test"));
    assert_eq!(field(field(&r, "coordinate"), "x"), &JsonValue::UInt(1));
}

#[test]
fn test_topology_path() {
    let params = jobj(vec![
        ("from_x", JsonValue::UInt(0)),
        ("from_y", JsonValue::NegInt(-1)),
        ("from_z", JsonValue::UInt(0)),
        ("to_x", JsonValue::UInt(2)),
        ("to_y", JsonValue::UInt(0)),
    ]);
    assert_eq!(coordinate_params(&params, "from").unwrap(), (0, -1, 0));
    assert_eq!(coordinate_params(&params, "to").unwrap_err().message, "missing 'to_z'");
    let r = path_reply((0, 0, 0), (1, 0, 0), &vec![(0, 0, 0), (1, 0, 0)]);
    assert_eq!(field(&r, "hops"), &JsonValue::UInt(2));
    assert_eq!(invalid_coordinate("out of range").message, "invalid coordinate: out of range");
}

// ---- shard ----

#[test]
fn test_shard_fetch_missing() {
    let id = "aa".repeat(32);
    let bytes = parse_shard_id(&jobj(vec![("shard_id", text(&id))])).unwrap();
    assert_eq!(bytes, vec![0xaa; 32]);
    let e = shard_not_found(&id);
    assert_eq!(e.code, -32001);
    assert_eq!(e.message, format!("shard {id} not found locally or on network"));
}

#[test]
fn shard_id_must_be_32_hex_bytes() {
    assert_eq!(parse_shard_id(&jobj(vec![])).unwrap_err().message, "missing 'shard_id' parameter");
    assert_eq!(
        parse_shard_id(&jobj(vec![("shard_id", text("aabb"))])).unwrap_err().message,
        "shard_id must be 32 bytes"
    );
    assert!(parse_shard_id(&jobj(vec![("shard_id", text("zz"))]))
        .unwrap_err()
        .message
        .starts_with("invalid shard_id hex: "));
}

#[test]
fn test_shard_fetch_local() {
    let r = local_shard_reply(&[0x01, 0x02]);
    assert_eq!(field(&r, "source"), &text("local"));
    assert_eq!(field(&r, "data"), &text("0102"));
    let r = network_shard_reply("0123456789abcdef", &[0xff], 2);
    assert_eq!(field(&r, "peer"), &text("01234567"));
    assert_eq!(field(&r, "announce_targets"), &JsonValue::UInt(2));
}

#[test]
fn fetch_order_puts_known_providers_first() {
    let ids: Vec<String> = ["a", "b", "c", "d", "e", "f", "g", "h"].iter().map(|s| s.to_string()).collect();
    let known = vec!["g".to_string(), "c".to_string()];
    assert_eq!(fetch_order(&ids, &known), vec![2, 6, 0, 1, 3, 4]);
    assert_eq!(fetch_order(&ids[..2].to_vec(), &vec![]), vec![0, 1]);
}

#[test]
fn merge_providers_skips_known_and_repeats() {
    let mut merged = vec!["x".to_string()];
    let answers = vec!["a".to_string(), "k".to_string(), "a".to_string(), "x".to_string(), "b".to_string()];
    let known = vec!["k".to_string()];
    merge_providers(&mut merged, &answers, &known);
    assert_eq!(merged, vec!["x".to_string(), "a".to_string(), "b".to_string()]);
}

#[test]
fn shard_content_is_checked_against_its_id() {
    let data = b"shard-bytes".to_vec();
    let id = blake3::hash(&data).as_bytes().to_vec();
    assert!(shard_content_ok(&data, &id));
    assert!(!shard_content_ok(b"other", &id));
    assert!(!shard_content_ok(&[], &blake3::hash(&[]).as_bytes().to_vec()));
    assert!(bytes_eq(&[1, 2], &[1, 2]));
    assert!(!bytes_eq(&[1, 2], &[1]));
    assert_eq!(shard_fetch_request(&[7, 8]), vec![2, 7, 8]);
}

#[test]
fn test_reannounce_gate_allows_onchain_content_bound_shard() {
    let id = vec![1u8; 32];
    assert_eq!(registration_verdict(true, false, None, &id), RegistrationVerdict::AlreadyAuthorized);
}

#[test]
fn test_revalidate_and_register_accepts_covering_registration() {
    let id = vec![1u8; 32];
    let hashes = vec![vec![0u8; 32], id.clone()];
    assert!(covers_shard(&hashes, &id));
    assert_eq!(registration_verdict(false, true, Some(&hashes), &id), RegistrationVerdict::Register);
}

#[test]
fn test_revalidate_and_register_rejects_non_covering_registration() {
    let id = vec![1u8; 32];
    let hashes = vec![vec![0u8; 32]];
    assert_eq!(registration_verdict(false, true, Some(&hashes), &id), RegistrationVerdict::DoesNotCover);
    assert_eq!(registration_verdict(false, true, None, &id), RegistrationVerdict::DoesNotCover);
}

#[test]
fn test_revalidate_and_register_rejects_unbound_proof() {
    let id = vec![1u8; 32];
    let hashes = vec![id.clone()];
    assert_eq!(registration_verdict(false, false, Some(&hashes), &id), RegistrationVerdict::NotContentBound);
}

// ---- store ----

#[test]
fn store_request_and_privacy() {
    assert_eq!(store_path(&jobj(vec![("path", text("/tmp/f"))])).unwrap(), "/tmp/f");
    assert_eq!(store_path(&jobj(vec![])).unwrap_err().message, "missing 'path' parameter");
    assert!(stores_in_clear("Public"));
    assert!(stores_in_clear("Anonymous"));
    assert!(stores_in_clear("PrivacyMode { scope: Unbounded }"));
    assert!(!stores_in_clear("Private"));
    assert!(!stores_in_clear("public"));
    assert_eq!(store_config("ab"), b"STORE:SHARDED:ab".to_vec());
}

#[test]
fn store_errors_carry_their_codes() {
    assert_eq!(read_failed("/f", "denied").code, -32001);
    assert_eq!(read_failed("/f", "denied").message, "failed to read /f: denied");
    assert_eq!(stage_error(StoreStage::PipelineInit, "x").code, -32002);
    assert_eq!(stage_error(StoreStage::Pipeline, "x").message, "pipeline processing failed: x");
    assert_eq!(stage_error(StoreStage::Persist, "x").code, -32004);
}

#[test]
fn store_hashes_and_ids() {
    let shards = vec![b"one".to_vec(), b"two".to_vec()];
    let hs = shard_hashes(&shards);
    assert_eq!(hs.len(), 2);
    assert_eq!(hs[0].0, blake3::hash(b"one").as_bytes().to_vec());
    assert_eq!(hs[1].1, blake3::hash(b"two").to_hex().to_string());
    let id = "11".repeat(32);
    assert_eq!(asset_hash_from_id(&id).unwrap(), vec![0x11; 32]);
    assert_eq!(asset_hash_from_id("abc").unwrap_err().message, "asset_id is not a 32-byte hex hash: abc");
    assert_eq!(node_private_fingerprint(&id), Some(vec![0x11; 32]));
    assert_eq!(node_private_fingerprint("node-1"), None);
}

#[test]
fn store_reply_reports_distribution() {
    let o = StoreOutcome {
        asset_id: "aa".to_string(),
        shard_count: 2,
        original_size: 10,
        final_size: 12,
        registered_block: 1,
        shard_hashes: vec!["h1".to_string(), "h2".to_string()],
    };
    let r = store_reply(&o, no_network_distribution(2));
    assert_eq!(field(field(&r, "distributed"), "reason"), &text("no_network"));
    assert_eq!(arr_len(field(&r, "shard_hashes")), 2);
    let d = distribution_report(1, 1, 0);
    assert_eq!(field(&d, "failed"), &JsonValue::UInt(0));
}

// ---- status, transport, analytics ----

#[test]
fn test_register_all_ping() {
    assert_eq!(ping_reply(), text("pong"));
    assert_eq!(field(&shutdown_reply(), "status"), &text("shutting_down"));
}

#[test]
fn test_register_all_status() {
    let f = NodeFacts {
        node_id: "test-node".to_string(),
        coordinate: (0, 0, 0),
        chain_height: 0,
        privacy_mode: "Private".to_string(),
        peers: 0,
        uptime_secs: 1,
    };
    let r = node_status_reply(&f);
    assert_eq!(field(&r, "node_id"), &text("test-node"));
}

#[test]
fn test_register_all_has_domain_methods() {
    let mut h = RequestHandler::new();
    register_all(&mut h, None);
    for m in ["dns.resolve", "domain.register", "blockchain.height", "topology.path", "asset.list",
        "dashboard.info", "gateway.initiate_transfer", "share.reject", "message.read",
        "identity.pubkey", "peer.pubkey", "intelligence.stats", "caesar.staking",
        "engauge.routing", "trustchain.request_cert", "stoq.performance", "config.set",
        "auth.revoke_session", "ping", "shutdown", "status", "store", "shard.fetch"]
    {
        assert!(h.is_registered(m), "method {m} should be registered");
    }
    assert!(!h.is_registered("no.such.method"));
    assert_eq!(h.methods().len(), daemon_methods().len());
    assert!(!h.capability_enforcement_enabled());
    let mut h2 = RequestHandler::new();
    register_all(&mut h2, Some(CapabilityContext::new(vec![1, 2, 3])));
    assert!(h2.capability_enforcement_enabled());
    let _ = METHOD_NOT_FOUND;
}

#[test]
fn test_intelligence_stats_no_network() {
    let r = intelligence_stats_reply(false, 0, 0, false, 3);
    assert_eq!(field(field(&r, "shard_store"), "shard_count"), &JsonValue::UInt(0));
    assert_eq!(field(field(&r, "network"), "transport_active"), &JsonValue::Bool(false));
    assert_eq!(field(&r, "uptime_secs"), &JsonValue::UInt(3));
}

#[test]
fn test_stoq_stats_returns_json() {
    let addrs = vec!["a".to_string(), "b".to_string(), "a".to_string()];
    assert_eq!(unique_endpoints(&addrs), 2);
    let f = TransportFacts {
        node_id: "n".to_string(),
        connections: 3,
        unique_endpoints: 2,
        shard_transport_active: false,
        privacy_mode: "Private".to_string(),
        uptime_secs: 0,
    };
    let r = stoq_stats_reply(&f);
    assert_eq!(field(&r, "protocol"), &text("QUIC"));
    assert_eq!(field(&r, "unique_endpoints"), &JsonValue::UInt(2));
}

#[test]
fn test_stoq_connections_returns_json() {
    let r = stoq_connections_reply(None);
    assert_eq!(field(&r, "count"), &JsonValue::UInt(0));
    let ps = vec![PeerSummary { node_id: "n".to_string(), address: "x".to_string(), coordinate: (0, 0, 0) }];
    let r = stoq_connections_reply(Some(&ps));
    assert_eq!(field(&r, "count"), &JsonValue::UInt(1));
}

#[test]
fn test_stoq_performance_returns_json() {
    let r = stoq_performance_reply("n", 0, 5);
    assert_eq!(field(&r, "status"), &text("alpha"));
    assert_eq!(field(&r, "avg_latency_ms"), &JsonValue::Float("0.0".to_string()));
}

#[test]
fn test_engauge_capacity_returns_json() {
    let r = engauge_capacity_reply("n", 0, 0, 1, flags());
    assert_eq!(field(&r, "shards_stored"), &JsonValue::UInt(0));
    assert_eq!(field(&r, "bridge_attached"), &JsonValue::Bool(false));
}

#[test]
fn test_engauge_traffic_returns_json() {
    let r = engauge_traffic_reply("n", 2, "Private", 0, flags());
    assert_eq!(field(&r, "active_connections"), &JsonValue::UInt(2));
    assert_eq!(field(&r, "transmit_summaries"), &JsonValue::UInt(0));
}

#[test]
fn test_engauge_throttle_returns_json() {
    let r = engauge_throttle_reply("n", "Private", flags());
    assert_eq!(field(&r, "throttled"), &JsonValue::Bool(false));
}

#[test]
fn test_engauge_routing_returns_json() {
    let r = engauge_routing_reply("n", (1, 2, 3), 0, flags());
    assert_eq!(field(&r, "routing_table_size"), &JsonValue::UInt(0));
}

#[test]
fn test_caesar_overview_returns_json() {
    let r = caesar_overview_unavailable("n", CaesarUnavailable::FeatureDisabled, 4, 9);
    assert_eq!(field(&r, "error"), &text("feature_unavailable"));
    assert_eq!(field(&r, "chain_height"), &JsonValue::UInt(4));
}

#[test]
fn test_caesar_balance_returns_json() {
    let r = caesar_balance_unavailable("n", CaesarUnavailable::ProtocolUnavailable);
    assert_eq!(field(&r, "error"), &text("protocol_unavailable"));
    assert_eq!(field(&r, "method"), &text("caesar.balance"));
}

#[test]
fn test_caesar_transactions_returns_json() {
    let r = caesar_transactions_unavailable("n", CaesarUnavailable::FeatureDisabled, &jobj(vec![]));
    assert_eq!(field(&r, "limit"), &JsonValue::UInt(50));
    assert_eq!(field(&r, "count"), &JsonValue::UInt(0));
}

#[test]
fn test_caesar_rewards_returns_json() {
    let r = caesar_rewards_unavailable("n", CaesarUnavailable::FeatureDisabled, 3, "Private");
    assert_eq!(field(&r, "shards_hosted"), &JsonValue::UInt(3));
    assert_eq!(field(&r, "privacy_mode"), &text("Private"));
    let r = caesar_rewards_unavailable("n", CaesarUnavailable::ProtocolUnavailable, 3, "Private");
    assert!(r.get("privacy_mode").is_none());
}

#[test]
fn test_caesar_staking_returns_json() {
    let r = caesar_staking_unavailable("n", CaesarUnavailable::FeatureDisabled);
    assert_eq!(arr_len(field(&r, "stake_entries")), 0);
}

// ---- auth ----

#[test]
fn create_session_rejects_when_not_configured() {
    let params = jobj(vec![
        ("device_pubkey", text("deadbeef")),
        ("requested_capabilities", JsonValue::Array(vec![text("viewonly")])),
        ("ttl_secs", JsonValue::UInt(60)),
    ]);
    let e = create_session_request(&params, false).unwrap_err();
    assert!(e.message.contains("alpha-default inert"));
    assert_eq!(e.message, auth_not_configured().message);
    let q = create_session_request(&params, true).unwrap();
    assert_eq!(q.device_pubkey, vec![0xde, 0xad, 0xbe, 0xef]);
    assert_eq!(q.capabilities, vec![Capability::ViewOnly]);
    assert_eq!(q.ttl_secs, 60);
}

#[test]
fn create_session_checks_parameters() {
    let e = create_session_request(&jobj(vec![]), true).unwrap_err();
    assert_eq!(e.message, "missing 'device_pubkey' parameter (hex)");
    let e = create_session_request(&jobj(vec![("device_pubkey", text("00"))]), true).unwrap_err();
    assert_eq!(e.message, "missing 'requested_capabilities' parameter");
    let q = create_session_request(
        &jobj(vec![("device_pubkey", text("00")), ("requested_capabilities", JsonValue::Array(vec![]))]),
        true,
    )
    .unwrap();
    assert_eq!(q.ttl_secs, 3600);
}

#[test]
fn session_registry_finds_capabilities() {
    let mut reg = SessionRegistry::new();
    assert_eq!(reg.count(), 0);
    reg.record(SessionRecord {
        session_id: "s-1".to_string(),
        device_pubkey_hex: "aa".to_string(),
        capabilities: vec![Capability::Wallet],
        issued_at_secs: 1,
        valid_until_secs: 2,
    });
    assert_eq!(reg.count(), 1);
    assert_eq!(reg.capabilities_of("s-1"), vec![Capability::Wallet]);
    assert!(reg.capabilities_of("s-2").is_empty());
    let r = sessions_reply(vec![jobj(vec![])]);
    assert_eq!(field(&r, "count"), &JsonValue::UInt(1));
}

#[test]
fn revoke_session_parses_uuid() {
    let id = revoke_session_id(
        &jobj(vec![("session_id", text("550E8400-E29B-41D4-A716-446655440000"))]),
        true,
    )
    .unwrap();
    assert_eq!(id, "550e8400-e29b-41d4-a716-446655440000");
    let e = revoke_session_id(&jobj(vec![("session_id", text("nope"))]), true).unwrap_err();
    assert!(e.message.starts_with("invalid session_id UUID: "));
    assert_eq!(revoke_session_id(&jobj(vec![]), true).unwrap_err().message, "missing 'session_id' parameter");
    assert_eq!(revoke_session_id(&jobj(vec![]), false).unwrap_err().code, INTERNAL_ERROR);
    assert_eq!(field(&revoked_reply(&id), "revoked"), &JsonValue::Bool(true));
}

// ---- error builders and remaining replies ----

#[test]
fn internal_error_messages() {
    let cases = vec![
        (grant_sign_failed("k"), "FALCON sign failed: k"),
        (grant_serialize_failed("s"), "serialize grant: s"),
        (state_proof_failed("p"), "state proof generation failed: p"),
        (proof_generation_failed("q"), "PoS proof generation failed: q"),
        (issue_failed("i"), "issue token failed: i"),
        (chain_write_failed("c"), "blockchain write failed: c"),
        (persist_failed("d"), "failed to persist dashboard: d"),
        (local_search_failed("l"), "local search failed: l"),
        (onchain_registration_failed("o"), "on-chain shard registration failed: o"),
    ];
    for (e, m) in cases {
        assert_eq!(e.code, INTERNAL_ERROR);
        assert_eq!(e.message, m);
    }
}

#[test]
fn token_reply_shows_keys_in_hex() {
    let t = TokenView {
        session_id: "s-1".to_string(),
        device_pubkey: vec![0xde, 0xad],
        issued_at_secs: 1,
        valid_until_secs: 61,
        issued_by: vec![0x01],
        signature: vec![0xff, 0x00],
    };
    let r = token_reply(&t, JsonValue::Array(vec![text("ViewOnly")]), jobj(vec![]));
    assert_eq!(field(&r, "device_pubkey_hex"), &text("dead"));
    assert_eq!(field(&r, "signature_hex"), &text("ff00"));
    assert_eq!(field(&r, "valid_until_secs"), &JsonValue::UInt(61));
}

#[test]
fn applied_update_reply() {
    let req = UpdateRequest {
        target_version: "1.2.0".to_string(),
        channel: ReleaseChannel::Stable,
        target_triple: "x86_64-unknown-linux-musl".to_string(),
        install_path: "/opt/hm".to_string(),
        binary_b64: None,
    };
    let entry = ReleaseEntry {
        version: "1.2.0".to_string(),
        channel: ReleaseChannel::Stable,
        binary_hashes: vec![],
        release_notes_url: "https://notes".to_string(),
        requires_min_version: None,
        breaking_changes: false,
    };
    let r = applied_reply(&req, &entry, "abcd", "/opt/hm", true);
    assert_eq!(field(&r, "status"), &text("applied"));
    assert_eq!(field(&r, "restart_scheduled"), &JsonValue::Bool(true));
    assert_eq!(field(&r, "expected_binary_hash"), &text("abcd"));
    assert!(ValidationResult::Skipped { reason: "x".to_string() }.is_skipped());
}
