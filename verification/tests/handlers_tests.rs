use blockmatrix::http::{header_content_length, is_header_end, parse_request_line};
use blockmatrix::http::{http_reply, not_found_body, preflight_response, response_header, HttpReplyBody};
use blockmatrix::server::{request_text, socket_in_use_message, socket_owner, SocketOwner};
use blockmatrix::share::{ invite_id, needs_name_resolution, parse_recipient_kyber_pubkey, resolved_recipient, share_send_params, shard_map_missing, share_sent_reply, };
use blockmatrix::dashboard::{decode_dashboard_files, deploy_config, deploy_params, deployed_reply};
use blockmatrix::cert_request::{cert_request_params, cert_signed_reply, signing_error, SigningPath};
use blockmatrix::asset::{
    asset_registered_reply, parse_system_type, prepare_asset_register, registration_failed,
    AssetCategoryPlan, BaseSystemType,
};
use blockmatrix::catalog::{
    merge_search_results, parse_content_hash_hex, parse_search_params, registry_not_wired_reply,
    search_reply, PeerOutcome, PeerRow, SearchMatch,
};
use blockmatrix::client::IpcClient;
use blockmatrix::gateway::{parse_scope, prepare_transfer, transfer_failed, BlockchainScope};
use blockmatrix::json::JsonValue;
use blockmatrix::protocol::{
    RpcResponse, RpcError, INTERNAL_ERROR, INVALID_PARAMS, PROTOCOL_VERSION_MISMATCH,
};
use blockmatrix::system::{decide_apply_update, UpdatePlan};
use blockmatrix::system::{
    apply_error_to_rpc, check_binary_hash, check_update_reply, decode_candidate,
    eq_ignore_ascii_case, expected_binary_hash, parse_channel, parse_update_request,
    select_release, sha256_hex, verify_and_gate, ApplyUpdateError, GateFacts, ReleaseChannel,
    ReleaseEntry,
};
use blockmatrix::x509::{
    cert_status, collect_extended_key_usage, collect_key_usage, oid_label_string, oid_to_name,
    render_general_name, render_ip, ExtendedKeyUsageFlags, GeneralNameValue, KeyUsageFlags,
};

fn obj(entries: Vec<(&str, JsonValue)>) -> JsonValue {
    JsonValue::Object(entries.into_iter().map(|(k, v)| (k.to_string(), v)).collect())
}

fn s(text: &str) -> JsonValue {
    JsonValue::Str(text.to_string())
}

fn member<'a>(v: &'a JsonValue, key: &str) -> &'a JsonValue {
    v.get(key).expect("member present")
}

#[test]
fn test_parse_system_type() {
    assert!(matches!(parse_system_type("dns"), Ok(BaseSystemType::Dns)));
    assert!(matches!(parse_system_type("Cpu"), Ok(BaseSystemType::Cpu)));
    assert!(matches!(parse_system_type("GPU"), Ok(BaseSystemType::Gpu)));
    assert!(matches!(parse_system_type("Dashboard"), Ok(BaseSystemType::Dashboard)));
    assert!(matches!(parse_system_type("identity"), Ok(BaseSystemType::Identity)));
    assert!(matches!(parse_system_type("key_rotation"), Ok(BaseSystemType::KeyRotation)));
    assert!(matches!(parse_system_type("invitation"), Ok(BaseSystemType::Invitation)));
    assert!(matches!(parse_system_type("message"), Ok(BaseSystemType::Message)));
    assert!(parse_system_type("foobar").is_err());
}

#[test]
fn unknown_system_type_message() {
    let e = parse_system_type("FooBar").unwrap_err();
    assert_eq!(e.code, INVALID_PARAMS);
    assert_eq!(e.message, "unknown system type 'foobar', use 'application' category for custom types");
    assert!(matches!(parse_system_type("KeyRotation"), Ok(BaseSystemType::KeyRotation)));
}

#[test]
fn asset_register_checks() {
    let e = prepare_asset_register(&obj(vec![])).unwrap_err();
    assert_eq!(e.message, "category required (system|application)");
    let e = prepare_asset_register(&obj(vec![("category", s("system"))])).unwrap_err();
    assert_eq!(e.message, "content required (hex-encoded asset data)");
    let e = prepare_asset_register(&obj(vec![("category", s("system")), ("content", s("zz"))]))
        .unwrap_err();
    assert!(e.message.starts_with("invalid hex content: "));
    let e = prepare_asset_register(&obj(vec![("category", s("weird")), ("content", s("00"))]))
        .unwrap_err();
    assert_eq!(e.message, "unknown category 'weird', expected 'system' or 'application'");
    let e = prepare_asset_register(&obj(vec![("category", s("system")), ("content", s("00"))]))
        .unwrap_err();
    assert_eq!(e.message, "unknown system type 'unknown', use 'application' category for custom types");

    let plan = prepare_asset_register(&obj(vec![
        ("category", s("system")),
        ("content", s("0aff")),
        ("type_name", s("Storage")),
    ]))
    .expect("system asset");
    assert!(matches!(plan.category, AssetCategoryPlan::System(BaseSystemType::Storage)));
    assert_eq!(plan.content, vec![0x0a, 0xff]);
    assert_eq!(plan.type_label, "Storage");
    assert_eq!(plan.metadata, obj(vec![]));

    let plan = prepare_asset_register(&obj(vec![
        ("category", s("application")),
        ("content", s("01")),
        ("type_name", s("game")),
        ("type_hash", s("abcd")),
        ("metadata", obj(vec![("v", JsonValue::UInt(1))])),
    ]))
    .expect("application asset");
    match plan.category {
        AssetCategoryPlan::Application { domain_name, domain_hash } => {
            assert_eq!(domain_name, "game");
            let mut expected = vec![0xab, 0xcd];
            expected.resize(32, 0);
            assert_eq!(domain_hash, expected);
        }
        other => panic!("{other:?}"),
    }
    assert_eq!(plan.metadata, obj(vec![("v", JsonValue::UInt(1))]));

    let plan = prepare_asset_register(&obj(vec![
        ("category", s("application")),
        ("content", s("")),
        ("type_name", s("game")),
    ]))
    .expect("application asset");
    match plan.category {
        AssetCategoryPlan::Application { domain_hash, .. } => {
            assert_eq!(domain_hash, blake3::hash(b"game").as_bytes().to_vec());
        }
        other => panic!("{other:?}"),
    }
    let e = prepare_asset_register(&obj(vec![
        ("category", s("application")),
        ("content", s("")),
        ("type_hash", s("xyz")),
    ]))
    .unwrap_err();
    assert!(e.message.starts_with("invalid type_hash hex: "));
}

#[test]
fn asset_replies() {
    let r = asset_registered_reply(&[0xde, 0xad], 7);
    assert_eq!(
        r,
        obj(vec![("asset_id", s("dead")), ("block_index", JsonValue::UInt(7)), ("status", s("registered"))])
    );
    let e = registration_failed("full");
    assert_eq!((e.code, e.message.as_str()), (INTERNAL_ERROR, "blockchain registration failed: full"));
}

fn entry(version: &str, min: Option<&str>) -> ReleaseEntry {
    ReleaseEntry {
        version: version.to_string(),
        channel: ReleaseChannel::Stable,
        binary_hashes: vec![(
            "x86_64-unknown-linux-musl".to_string(),
            sha256_hex(b"#!/bin/sh\n# hypermesh test binary\nexit 0\n"),
        )],
        release_notes_url: format!("https://release.hypermesh.online/{version}"),
        requires_min_version: min.map(|m| m.to_string()),
        breaking_changes: false,
    }
}

#[test]
fn verify_and_gate_rejects_bad_signature() {
    let version = "0.999.0";
    let e = entry(version, None);
    // Verified against the wrong key: the signature does not verify.
    let facts = GateFacts { foundation_key_present: true, signature_valid: false, running_below_min: false };
    let r = verify_and_gate(&e.version, e.requires_min_version.as_deref(), facts, version);
    assert!(matches!(r, Err(ApplyUpdateError::SignatureInvalid)));
}

#[test]
fn verify_and_gate_rejects_unmet_min_version() {
    let running = "0.1.0";
    let e = entry("0.9.0", Some("0.5.0"));
    let facts = GateFacts { foundation_key_present: true, signature_valid: true, running_below_min: true };
    let r = verify_and_gate(&e.version, e.requires_min_version.as_deref(), facts, running);
    assert!(matches!(r, Err(ApplyUpdateError::MinVersionUnmet { .. })));
}

#[test]
fn gate_order_and_messages() {
    let ok = GateFacts { foundation_key_present: true, signature_valid: true, running_below_min: false };
    assert!(verify_and_gate("0.2.0", None, ok, "0.1.0").is_ok());
    let no_key = GateFacts { foundation_key_present: false, signature_valid: false, running_below_min: true };
    assert!(matches!(verify_and_gate("9.0.0", Some("1.0.0"), no_key, "0.1.0"), Err(ApplyUpdateError::NoFoundationKey)));
    let r = verify_and_gate("1.0.0", None, ok, "0.1.0").unwrap_err();
    let rpc = apply_error_to_rpc(r);
    assert_eq!(rpc.code, PROTOCOL_VERSION_MISMATCH);
    assert_eq!(
        rpc.message,
        "release 1.0.0 is protocol-incompatible with daemon 0.1.0 (major version differs); refusing to apply"
    );
    let below = GateFacts { foundation_key_present: true, signature_valid: true, running_below_min: true };
    assert!(verify_and_gate("0.9.0", None, below, "0.1.0").is_ok());
    let rpc = apply_error_to_rpc(ApplyUpdateError::MinVersionUnmet { required: "0.5.0".into(), running: "0.1.0".into() });
    assert_eq!(
        rpc.message,
        "release requires_min_version 0.5.0 is newer than running 0.1.0; upgrade to the required compatibility step first"
    );
    let rpc = apply_error_to_rpc(ApplyUpdateError::SignatureInvalid);
    assert_eq!((rpc.code, rpc.message.as_str()), (INVALID_PARAMS, "release signature failed FALCON-1024 verification; refusing to apply"));
    let rpc = apply_error_to_rpc(ApplyUpdateError::NoFoundationKey);
    assert_eq!((rpc.code, rpc.message.as_str()), (INTERNAL_ERROR, "no foundation public key configured; cannot verify release"));
    let rpc = apply_error_to_rpc(ApplyUpdateError::Io("disk full".into()));
    assert_eq!((rpc.code, rpc.message.as_str()), (INTERNAL_ERROR, "binary swap failed: disk full"));
}

#[test]
fn binary_hash_check() {
    let bytes = b"#!/bin/sh\n# hypermesh test binary\nexit 0\n";
    let hash = sha256_hex(bytes);
    assert_eq!(hash.len(), 64);
    assert!(check_binary_hash(bytes, &hash).is_ok());
    assert!(check_binary_hash(bytes, &hash.to_uppercase()).is_ok());
    match check_binary_hash(b"tampered binary", &hash) {
        Err(e @ ApplyUpdateError::HashMismatch { .. }) => {
            let rpc = apply_error_to_rpc(e);
            assert!(rpc.message.contains("does not match"));
            assert!(rpc.message.ends_with("; refusing to swap"));
        }
        other => panic!("{other:?}"),
    }
    assert_eq!(sha256_hex(b""), "e3b0c44298fc1c149afbf4c8996fb92427ae41e4649b934ca495991b7852b855");
    assert!(eq_ignore_ascii_case("AbC", "aBc"));
    assert!(!eq_ignore_ascii_case("abc", "abd"));
}

#[test]
fn update_requests_and_replies() {
    let e = parse_update_request(&obj(vec![])).unwrap_err();
    assert_eq!(e.message, "missing 'version' parameter");
    let e = parse_channel(&obj(vec![("channel", s("edge"))])).unwrap_err();
    assert_eq!(e.message, "invalid channel 'edge': expected stable|beta|nightly");
    assert_eq!(parse_channel(&obj(vec![])).unwrap(), ReleaseChannel::Stable);
    assert_eq!(parse_channel(&obj(vec![("channel", s("nightly"))])).unwrap(), ReleaseChannel::Nightly);

    let req = parse_update_request(&obj(vec![("version", s("0.999.0"))])).unwrap();
    assert_eq!(req.target_triple, "x86_64-unknown-linux-musl");
    assert_eq!(req.install_path, "/usr/local/bin/hypermesh");
    assert!(req.binary_b64.is_none());

    let e = select_release(&req, false, &vec![]).unwrap_err();
    assert!(e.message.contains("not configured"));
    let e = select_release(&req, true, &vec![entry("0.1.0", None)]).unwrap_err();
    assert!(e.message.contains("not configured"));
    assert_eq!(e.code, INVALID_PARAMS);
    assert_eq!(
        e.message,
        "release not configured: no cached release entry for version '0.999.0' on channel 'stable'"
    );
    let entries = vec![entry("0.1.0", None), entry("0.999.0", None)];
    let idx = select_release(&req, true, &entries).unwrap();
    assert_eq!(idx, 1);
    let hash = expected_binary_hash(&req, &entries[idx]).unwrap();
    let reply = blockmatrix::system::authorized_reply(&req, &entries[idx], &hash);
    assert_eq!(member(&reply, "status"), &s("authorized"));
    assert_eq!(member(&reply, "applied"), &JsonValue::Bool(false));
    assert_eq!(member(&reply, "version"), &s("0.999.0"));

    let other = parse_update_request(&obj(vec![("version", s("0.999.0")), ("target", s("arm"))])).unwrap();
    let e = expected_binary_hash(&other, &entries[1]).unwrap_err();
    assert_eq!(e.message, "release entry for 0.999.0 has no binary hash for target 'arm'");

    let e = decode_candidate("not base64!").unwrap_err();
    assert!(e.message.starts_with("'binary' is not valid base64: "));
    assert_eq!(decode_candidate("aGk=").unwrap(), b"hi".to_vec());
}

#[test]
fn apply_update_decisions() {
    let ok = GateFacts { foundation_key_present: true, signature_valid: true, running_below_min: false };
    let bad_sig = GateFacts { signature_valid: false, ..ok };
    let entries = vec![entry("0.1.0", None), entry("2.0.0", None)];
    let params = |v: &str| obj(vec![("version", s(v))]);

    let e = decide_apply_update(&params("0.1.0"), false, &entries, &vec![ok, ok]).unwrap_err();
    assert!(e.message.contains("not configured"));
    let e = decide_apply_update(&params("0.5.0"), true, &entries, &vec![ok, ok]).unwrap_err();
    assert!(e.message.contains("not configured"));
    assert_eq!(e.code, INVALID_PARAMS);
    let e = decide_apply_update(&params("0.1.0"), true, &entries, &vec![bad_sig, ok]).unwrap_err();
    assert_eq!(e.message, "release signature failed FALCON-1024 verification; refusing to apply");
    let e = decide_apply_update(&params("2.0.0"), true, &entries, &vec![ok, ok]).unwrap_err();
    assert_eq!(e.code, PROTOCOL_VERSION_MISMATCH);

    match decide_apply_update(&params("0.1.0"), true, &entries, &vec![ok, bad_sig]).unwrap() {
        (req, UpdatePlan::Authorized(reply)) => {
            assert_eq!(req.target_version, "0.1.0");
            assert_eq!(member(&reply, "status"), &s("authorized"));
            assert_eq!(member(&reply, "applied"), &JsonValue::Bool(false));
        }
        _ => panic!("expected an authorized update"),
    }

    let binary = "IyEvYmluL3NoCiMgaHlwZXJtZXNoIHRlc3QgYmluYXJ5CmV4aXQgMAo=";
    let with_bin = obj(vec![("version", s("0.1.0")), ("binary", s(binary)), ("install_path", s("/tmp/hm"))]);
    match decide_apply_update(&with_bin, true, &entries, &vec![ok, ok]).unwrap() {
        (_, UpdatePlan::Swap { entry_index, candidate, install_path, .. }) => {
            assert_eq!(entry_index, 0);
            assert_eq!(candidate, b"#!/bin/sh\n# hypermesh test binary\nexit 0\n".to_vec());
            assert_eq!(install_path, "/tmp/hm");
        }
        _ => panic!("expected a swap"),
    }
    let wrong = obj(vec![("version", s("0.1.0")), ("binary", s("aGk="))]);
    let e = decide_apply_update(&wrong, true, &entries, &vec![ok, ok]).unwrap_err();
    assert!(e.message.starts_with("staged binary hash "));
    let e = decide_apply_update(&obj(vec![]), true, &entries, &vec![ok, ok]).unwrap_err();
    assert_eq!(e.message, "missing 'version' parameter");
}

#[test]
fn check_update_replies() {
    let r = check_update_reply(ReleaseChannel::Stable, false, None);
    assert_eq!(member(&r, "up_to_date"), &JsonValue::Bool(true));
    assert_eq!(member(&r, "note"), &s("release feed not configured (alpha-default inert)"));
    let newer = entry("0.999.0", Some("0.1.0"));
    let r = check_update_reply(ReleaseChannel::Stable, true, Some(&newer));
    assert_eq!(member(&r, "up_to_date"), &JsonValue::Bool(false));
    assert_eq!(member(&r, "available_version"), &s("0.999.0"));
    assert_eq!(member(&r, "requires_min_version"), &s("0.1.0"));
    let r = check_update_reply(ReleaseChannel::Beta, true, None);
    assert_eq!(member(&r, "up_to_date"), &JsonValue::Bool(true));
    assert_eq!(member(&r, "channel"), &s("beta"));
    assert!(r.get("note").is_none());
}

#[test]
fn test_parse_scope_device() {
    let scope = parse_scope("device").expect("test: parse device");
    assert_eq!(scope, BlockchainScope::Device);
}

#[test]
fn test_parse_scope_network() {
    let scope = parse_scope("network").expect("test: parse network");
    assert_eq!(scope, BlockchainScope::Network);
}

#[test]
fn test_parse_scope_case_insensitive() {
    let scope = parse_scope("Device").expect("test: parse Device");
    assert_eq!(scope, BlockchainScope::Device);
    let scope = parse_scope("NETWORK").expect("test: parse NETWORK");
    assert_eq!(scope, BlockchainScope::Network);
}

#[test]
fn test_parse_scope_invalid() {
    let err = parse_scope("invalid").unwrap_err();
    assert_eq!(err.code, INVALID_PARAMS);
    assert!(err.message.contains("invalid scope"));
    assert_eq!(err.message, "invalid scope 'invalid': expected 'device' or 'network'");
}

#[test]
fn test_parse_transfer_params() {
    let params = obj(vec![
        ("asset_id", s("test-asset-123")),
        ("source_scope", s("device")),
        ("target_scope", s("network")),
    ]);
    assert_eq!(params.get_str("asset_id").expect("test: asset_id"), "test-asset-123");
    assert_eq!(params.get_str("source_scope").expect("test: source_scope"), "device");
    assert_eq!(params.get_str("target_scope").expect("test: target_scope"), "network");
}

#[test]
fn test_parse_status_params() {
    let params = obj(vec![("transfer_id", s("gw-tx-1"))]);
    assert_eq!(params.get_str("transfer_id").expect("test: transfer_id"), "gw-tx-1");
}

#[test]
fn transfer_request_checks() {
    let e = prepare_transfer(&obj(vec![]), false).unwrap_err();
    assert_eq!((e.code, e.message.as_str()), (INTERNAL_ERROR, "transfer coordinator not configured"));
    let e = prepare_transfer(&obj(vec![]), true).unwrap_err();
    assert_eq!(e.message, "missing 'asset_id' parameter");
    let e = prepare_transfer(&obj(vec![("asset_id", s("a"))]), true).unwrap_err();
    assert_eq!(e.message, "missing 'target_chain_id' parameter");
    let e = prepare_transfer(&obj(vec![("asset_id", s("a")), ("target_chain_id", s("c"))]), true).unwrap_err();
    assert_eq!(e.message, "missing 'target_peer' (cert fingerprint) parameter");
    let t = prepare_transfer(
        &obj(vec![
            ("asset_id", s("a")),
            ("target_chain_id", s("c")),
            ("target_peer", s("p")),
            ("target_scope", s("Device")),
            ("shard_manifest", JsonValue::Array(vec![])),
        ]),
        true,
    )
    .unwrap();
    assert_eq!(t.target_scope, BlockchainScope::Device);
    assert_eq!(t.shard_manifest, Some(JsonValue::Array(vec![])));
    let t = prepare_transfer(
        &obj(vec![
            ("asset_id", s("a")),
            ("target_chain_id", s("c")),
            ("target_peer", s("p")),
            ("target_scope", s("DEVICE")),
            ("shard_manifest", s("nope")),
        ]),
        true,
    )
    .unwrap();
    assert_eq!(t.target_scope, BlockchainScope::Network);
    assert!(t.shard_manifest.is_none());
    assert_eq!(transfer_failed("timeout").message, "transfer failed: timeout");
}

fn m(hash: &str, source: &str) -> SearchMatch {
    SearchMatch { type_hash: hash.into(), name: format!("n-{hash}"), version: "1".into(), source: source.into() }
}

fn row(hash: &str) -> PeerRow {
    PeerRow { type_hash: hash.into(), name: format!("n-{hash}"), version: "2".into() }
}

#[test]
fn search_merge_dedups_and_collects_errors() {
    let local = vec![m("aa", "local")];
    let peers = vec![
        ("n1".to_string(), PeerOutcome::Rows(vec![row("aa"), row(""), row("bb"), row("bb")])),
        ("n2".to_string(), PeerOutcome::Failed("timeout".to_string())),
        ("n3".to_string(), PeerOutcome::Rows(vec![row("cc"), row("bb")])),
    ];
    let (merged, errors) = merge_search_results(local, peers);
    let hashes: Vec<&str> = merged.iter().map(|x| x.type_hash.as_str()).collect();
    assert_eq!(hashes, vec!["aa", "bb", "cc"]);
    assert_eq!(merged[0].source, "local");
    assert_eq!(merged[1].source, "neighbor:n1");
    assert_eq!(merged[2].source, "neighbor:n3");
    assert_eq!(errors, vec![("n2".to_string(), "timeout".to_string())]);
    let reply = search_reply("q", &merged, 3, &errors);
    assert_eq!(member(&reply, "total"), &JsonValue::UInt(3));
    assert_eq!(member(&reply, "neighbors_queried"), &JsonValue::UInt(3));
    assert_eq!(member(&reply, "status"), &s("ok"));
}

#[test]
fn search_params_and_alpha_reply() {
    let e = parse_search_params(&obj(vec![])).unwrap_err();
    assert_eq!((e.code, e.message.as_str()), (INVALID_PARAMS, "'query' (string) required"));
    let p = parse_search_params(&obj(vec![("query", s("x")), ("recursive", JsonValue::Bool(true))])).unwrap();
    assert_eq!((p.recursive, p.max_neighbors, p.timeout_ms, p.limit), (true, 8, 2000, 50));
    let r = registry_not_wired_reply("x");
    assert_eq!(member(&r, "status"), &s("alpha"));
    assert_eq!(member(&r, "matches"), &JsonValue::Array(vec![]));
}

#[test]
fn content_hash_hex_parsing() {
    let e = parse_content_hash_hex("abcd").unwrap_err();
    assert_eq!(e.message, "type_hash must be 64 hex chars (BLAKE3-256), got 4");
    let bad = "zz".repeat(32);
    let e = parse_content_hash_hex(&bad).unwrap_err();
    assert!(e.message.starts_with("invalid hex in type_hash: "));
    let good = "0f".repeat(32);
    assert_eq!(parse_content_hash_hex(&good).unwrap(), vec![0x0f; 32]);
}

#[test]
fn oid_names() {
    assert_eq!(oid_to_name("1.3.101.112"), Some("Ed25519"));
    assert_eq!(oid_to_name("2.5.29.17"), Some("subject_alt_name"));
    assert_eq!(oid_to_name("1.3.6.1.4.1.99999.2"), Some("Kyber-1024"));
    assert_eq!(oid_to_name("1.2.3"), None);
    assert_eq!(oid_label_string("1.2.3"), "1.2.3");
    assert_eq!(oid_label_string("1.2.840.113549.1.1.11"), "RSA-SHA256");
}

#[test]
fn usage_names_and_general_names() {
    let ku = KeyUsageFlags {
        digital_signature: true,
        non_repudiation: false,
        key_encipherment: true,
        data_encipherment: false,
        key_agreement: false,
        key_cert_sign: false,
        crl_sign: true,
        encipher_only: false,
        decipher_only: true,
    };
    assert_eq!(collect_key_usage(&ku), vec!["digital_signature", "key_encipherment", "crl_sign", "decipher_only"]);
    let eku = ExtendedKeyUsageFlags {
        any: false,
        server_auth: true,
        client_auth: true,
        code_signing: false,
        email_protection: false,
        time_stamping: false,
        ocsp_signing: true,
        other: vec!["1.3.6.1.5.5.7.3.3".to_string(), "9.9".to_string()],
    };
    assert_eq!(
        collect_extended_key_usage(&eku),
        vec!["server_auth", "client_auth", "ocsp_signing", "code_signing", "9.9"]
    );
    assert_eq!(render_ip(&[192, 168, 0, 1]), "IP:192.168.0.1");
    let v6 = [0x20, 0x01, 0x0d, 0xb8, 0, 0, 0, 0, 0, 0, 0, 0, 0, 0, 0, 1];
    assert_eq!(render_ip(&v6), "IP:2001:db8:0:0:0:0:0:1");
    assert_eq!(render_ip(&[1, 2, 3]), "IP:<3 bytes>");
    assert_eq!(render_general_name(&GeneralNameValue::DNSName("a.example".into())), "DNS:a.example");
    assert_eq!(render_general_name(&GeneralNameValue::RFC822Name("x@y".into())), "email:x@y");
    assert_eq!(render_general_name(&GeneralNameValue::RegisteredID("1.3.101.113".into())), "RegisteredID:Ed448");
    assert_eq!(render_general_name(&GeneralNameValue::OtherName("7.7".into())), "OtherName:7.7");
    assert_eq!(render_general_name(&GeneralNameValue::X400Address), "X400Address:<unparsed>");
    assert_eq!(cert_status(5, 10, 20), "not_yet_valid");
    assert_eq!(cert_status(25, 10, 20), "expired");
    assert_eq!(cert_status(20, 10, 20), "active");
}

#[test]
fn client_reply_handling() {
    let c = IpcClient::with_path("/tmp/nonexistent-hypermesh.sock".to_string());
    assert_eq!(c.socket_path(), "/tmp/nonexistent-hypermesh.sock");
    let d = IpcClient::new(None, Some("/run/user/3"), None);
    assert_eq!(d.socket_path(), "/run/user/3/hypermesh/ctl.sock");
    let ok = RpcResponse::success(1, JsonValue::UInt(5));
    assert_eq!(IpcClient::call_ok_result("ping", ok), Ok(JsonValue::UInt(5)));
    let err = RpcResponse::from_error(2, RpcError { code: -32601, message: "method not found: x".into(), data: None });
    assert_eq!(
        IpcClient::call_ok_result("x", err),
        Err("RPC error x: method not found: x (code -32601)".to_string())
    );
    let empty = RpcResponse { result: None, ..RpcResponse::success(3, JsonValue::Null) };
    assert_eq!(
        IpcClient::call_ok_result("y", empty),
        Err("RPC response missing both result and error".to_string())
    );
    assert_eq!(IpcClient::timeout_error(), "RPC call timed out after 30s");
}

#[test]
fn http_request_line_and_headers() {
    assert_eq!(
        parse_request_line("get /api/v1/status HTTP/1.1\r\n"),
        Ok(("GET".to_string(), "/api/v1/status".to_string()))
    );
    assert_eq!(parse_request_line("GET\r\n"), Err("malformed request line".to_string()));
    assert_eq!(header_content_length("Content-Length: 42\r\n", 0), 42);
    assert_eq!(header_content_length("content-length:7", 3), 7);
    assert_eq!(header_content_length("CONTENT-LENGTH: 7", 3), 3);
    assert_eq!(header_content_length("Content-Length: many", 5), 5);
    assert_eq!(header_content_length("Host: x", 9), 9);
    assert!(is_header_end("\r\n"));
    assert!(!is_header_end("Host: x\r\n"));
}

#[test]
fn http_reply_texts() {
    let h = response_header(404, "Not Found", 12);
    assert!(h.starts_with("HTTP/1.1 404 Not Found\r\nContent-Type: application/json\r\nContent-Length: 12\r\n"));
    assert!(h.contains("Access-Control-Allow-Origin: *\r\n"));
    assert!(h.ends_with("Access-Control-Max-Age: 86400\r\nConnection: close\r\n\r\n"));
    let p = preflight_response();
    assert!(p.starts_with("HTTP/1.1 204 No Content\r\nAccess-Control-Allow-Origin: *"));
    assert!(p.ends_with("\r\nContent-Length: 0\r\nConnection: close\r\n\r\n"));
    assert_eq!(not_found_body("/x"), obj(vec![("error", s("not found")), ("path", s("/x"))]));
    let ok = RpcResponse::success(1, JsonValue::UInt(3));
    match http_reply(&ok) {
        (200, "OK", HttpReplyBody::Result(v)) => assert_eq!(v, JsonValue::UInt(3)),
        other => panic!("{other:?}"),
    }
    let bad = RpcResponse::error(1, INVALID_PARAMS, "nope".to_string());
    assert!(matches!(http_reply(&bad), (400, "Bad Request", HttpReplyBody::WholeResponse)));
}

#[test]
fn server_socket_decisions() {
    assert_eq!(socket_owner(None), SocketOwner::Stale);
    assert_eq!(socket_owner(Some("0\n")), SocketOwner::Stale);
    assert_eq!(socket_owner(Some("garbage")), SocketOwner::Stale);
    assert_eq!(socket_owner(Some(" 4242\n")), SocketOwner::CheckProcess(4242));
    assert_eq!(socket_owner(Some("99999999999")), SocketOwner::Stale);
    assert_eq!(socket_in_use_message("/s"), "socket already exists and owning process is alive: /s");
    assert_eq!(request_text("  {\"a\":1}\n"), Some("{\"a\":1}".to_string()));
    assert_eq!(request_text(" \r\n"), None);
}

#[test]
fn share_send_pieces() {
    let e = share_send_params(&obj(vec![])).unwrap_err();
    assert_eq!(e.message, "missing or invalid 'asset_id' parameter");
    let e = share_send_params(&obj(vec![("asset_id", s("a1"))])).unwrap_err();
    assert_eq!(e.message, "missing or invalid 'recipient' parameter");
    let p = share_send_params(&obj(vec![("asset_id", s("a1")), ("recipient", s("bob"))])).unwrap();
    assert_eq!(p.asset_name, "a1");
    let e = parse_recipient_kyber_pubkey(&obj(vec![])).unwrap_err();
    assert!(e.message.starts_with("missing 'recipient_kyber_pubkey' (hex): the recipient's Kyber-1024 public key"));
    assert_eq!(parse_recipient_kyber_pubkey(&obj(vec![("recipient_kyber_pubkey", s("0102"))])).unwrap(), vec![1, 2]);
    assert!(needs_name_resolution("bob"));
    assert!(!needs_name_resolution(&"a".repeat(64)));
    assert_eq!(resolved_recipient("bob", Some("10.0.0.1")), "bob (10.0.0.1)");
    assert_eq!(resolved_recipient("bob", None), "bob");
    let salt = 7u128.to_le_bytes();
    let mut hasher = blake3::Hasher::new();
    hasher.update(b"a1");
    hasher.update(b"bob");
    hasher.update(&salt);
    let expected = format!("inv-{}", &hasher.finalize().to_hex()[..16]);
    assert_eq!(invite_id("a1", "bob", &salt), expected);
    assert_eq!(
        shard_map_missing("a1").message,
        "no shard map for asset a1; was it stored on this node?"
    );
    let r = share_sent_reply("inv-1", "a1", "bob", "me", true, 3, 100);
    assert_eq!(member(&r, "status"), &s("created_undelivered"));
    assert_eq!(member(&r, "delivered"), &JsonValue::Bool(false));
    assert_eq!(member(&r, "shard_count"), &JsonValue::UInt(3));
}

#[test]
fn dashboard_deploy_pieces() {
    let e = deploy_params(&obj(vec![])).unwrap_err();
    assert_eq!(e.message, "missing 'name' parameter");
    let e = deploy_params(&obj(vec![("name", s("d"))])).unwrap_err();
    assert_eq!(e.message, "missing 'manifest_toml' parameter");
    let e = deploy_params(&obj(vec![("name", s("d")), ("manifest_toml", s("m")), ("files", s("x"))])).unwrap_err();
    assert_eq!(e.message, "missing 'files' parameter (object)");
    let p = deploy_params(&obj(vec![
        ("name", s("d")),
        ("manifest_toml", s("m")),
        ("files", obj(vec![("index.html", s("aGk=")), ("app.js", s("eA=="))])),
    ]))
    .unwrap();
    let files = decode_dashboard_files(&p.files).unwrap();
    assert_eq!(files, vec![("index.html".to_string(), b"hi".to_vec()), ("app.js".to_string(), b"x".to_vec())]);
    let e = decode_dashboard_files(&vec![("a".to_string(), JsonValue::UInt(1))]).unwrap_err();
    assert_eq!(e.message, "file value for 'a' must be a base64 string");
    let e = decode_dashboard_files(&vec![("b".to_string(), s("!!"))]).unwrap_err();
    assert!(e.message.starts_with("invalid base64 for 'b': "));
    assert_eq!(deploy_config("d"), b"DASHBOARD:DEPLOY:d".to_vec());
    let r = deployed_reply("d", "1.0", "d.example", &[0xab], 4, 2);
    assert_eq!(member(&r, "hash"), &s("ab"));
    assert_eq!(member(&r, "files"), &JsonValue::UInt(2));
}

#[test]
fn cert_request_pieces() {
    let e = cert_request_params(&obj(vec![])).unwrap_err();
    assert_eq!(e.message, "missing 'csr' parameter (base64-encoded)");
    let e = cert_request_params(&obj(vec![("csr", s("%%"))])).unwrap_err();
    assert!(e.message.starts_with("csr base64 decode failed: "));
    let req = cert_request_params(&obj(vec![("csr", s("aGk="))])).unwrap();
    assert_eq!(req.csr, b"hi".to_vec());
    assert_eq!(req.scope, "local");
    let r = cert_signed_reply("node", &req, SigningPath::Local, b"sig");
    assert_eq!(member(&r, "signature"), &s("c2ln"));
    assert_eq!(member(&r, "csr_len"), &JsonValue::UInt(2));
    assert_eq!(member(&r, "path"), &s("local"));
    assert_eq!(signing_error("local sign failed", "boom").message, "local sign failed: boom");
}
