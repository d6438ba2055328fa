use blockmatrix::capability::{
    allows, always_public, capability_list_string, check_token, parse_capabilities,
    required_capability, Capability, TokenFacts,
};
use blockmatrix::json::JsonValue;
use blockmatrix::protocol::{CAPABILITY_DENIED, INVALID_PARAMS};

#[test]
fn read_only_methods_map_to_view_only() {
    for m in &[
        "status",
        "ping",
        "blockchain.height",
        "blockchain.block",
        "caesar.balance",
        "caesar.transactions",
        "engauge.capacity",
        "trustchain.identity",
        "stoq.stats",
        "dns.resolve",
        "asset.list",
        "asset.info",
        "topology.info",
        "share.inbox",
        "message.inbox",
        "system.check_update",
        "auth.list_sessions",
        "chain.lookup_cross_receipt",
        "config.show",
    ] {
        assert_eq!(required_capability(m), Capability::ViewOnly, "method {m} should be ViewOnly");
    }
}

#[test]
fn wallet_methods_map_to_wallet() {
    for m in &["caesar.transfer", "caesar.staking", "caesar.rewards"] {
        assert_eq!(required_capability(m), Capability::Wallet, "method {m} should be Wallet");
    }
}

#[test]
fn write_methods_map_to_asset_write() {
    for m in &[
        "asset.register",
        "store",
        "fetch",
        "share.send",
        "share.accept",
        "message.send",
        "dashboard.deploy",
        "dns.register",
        "domain.register",
        "domain.join",
        "domain.create",
    ] {
        assert_eq!(required_capability(m), Capability::AssetWrite, "method {m} should be AssetWrite");
    }
}

#[test]
fn admin_methods_map_to_admin() {
    for m in &[
        "shutdown",
        "config.set",
        "dns.foundation_grant",
        "auth.create_session",
        "auth.revoke_session",
        "system.apply_update",
        "trustchain.request_cert",
        "gateway.initiate_transfer",
    ] {
        assert_eq!(required_capability(m), Capability::Admin, "method {m} should be Admin");
    }
}

#[test]
fn unknown_method_defaults_to_admin() {
    assert_eq!(required_capability("totally.fake.method"), Capability::Admin);
    assert_eq!(required_capability(""), Capability::Admin);
    assert_eq!(required_capability("future.experiment"), Capability::Admin);
}

#[test]
fn always_public_only_auth_create_session() {
    assert!(always_public("auth.create_session"));
    assert!(!always_public("ping"));
    assert!(!always_public("status"));
    assert!(!always_public("auth.revoke_session"));
    assert!(!always_public("auth.list_sessions"));
}

#[test]
fn admin_grants_every_scope() {
    let admin = vec![Capability::Admin];
    for c in [Capability::ViewOnly, Capability::Wallet, Capability::AssetWrite, Capability::Admin] {
        assert!(allows(&admin, c));
    }
    let view = vec![Capability::ViewOnly];
    assert!(allows(&view, Capability::ViewOnly));
    assert!(!allows(&view, Capability::Wallet));
    assert!(!allows(&vec![], Capability::ViewOnly));
}

#[test]
fn capability_list_debug_text() {
    assert_eq!(capability_list_string(&vec![]), "[]");
    assert_eq!(capability_list_string(&vec![Capability::ViewOnly]), "[ViewOnly]");
    assert_eq!(
        capability_list_string(&vec![Capability::ViewOnly, Capability::Wallet]),
        "[ViewOnly, Wallet]"
    );
}

fn strs(items: &[&str]) -> JsonValue {
    JsonValue::Array(items.iter().map(|s| JsonValue::Str(s.to_string())).collect())
}

#[test]
fn parse_capabilities_accepts_all_spellings() {
    let caps = parse_capabilities(&strs(&["ViewOnly", "view_only", "VIEW-ONLY", "wallet", "Asset_Write", "asset-write", "assetwrite", "ADMIN"]))
        .expect("all valid");
    assert_eq!(
        caps,
        vec![
            Capability::ViewOnly,
            Capability::ViewOnly,
            Capability::ViewOnly,
            Capability::Wallet,
            Capability::AssetWrite,
            Capability::AssetWrite,
            Capability::AssetWrite,
            Capability::Admin
        ]
    );
}

#[test]
fn parse_capabilities_errors() {
    let e = parse_capabilities(&JsonValue::Str("admin".into())).unwrap_err();
    assert_eq!(e.code, INVALID_PARAMS);
    assert_eq!(e.message, "'requested_capabilities' must be an array of strings");

    let e = parse_capabilities(&JsonValue::Array(vec![JsonValue::UInt(1)])).unwrap_err();
    assert_eq!(e.message, "capability entries must be strings");

    let e = parse_capabilities(&strs(&["wallet", "Root"])).unwrap_err();
    assert_eq!(e.message, "unknown capability 'root': expected viewonly|wallet|assetwrite|admin");
}

fn facts(sig: bool, expired: bool, revoked: bool, caps: Vec<Capability>) -> TokenFacts {
    TokenFacts {
        checked_key: vec![1, 2, 3],
        signature_valid: sig,
        expired,
        revoked,
        session_id: "7d1f0c1e-0000-4000-8000-000000000001".to_string(),
        capabilities: caps,
    }
}

#[test]
fn token_checks_in_order() {
    let e = check_token(&facts(false, true, true, vec![]), Capability::ViewOnly).unwrap_err();
    assert_eq!(e.code, CAPABILITY_DENIED);
    assert_eq!(e.message, "capability_token signature verification failed");

    let e = check_token(&facts(true, true, true, vec![]), Capability::ViewOnly).unwrap_err();
    assert_eq!(e.message, "capability_token expired");

    let e = check_token(&facts(true, false, true, vec![]), Capability::ViewOnly).unwrap_err();
    assert_eq!(
        e.message,
        "capability_token session 7d1f0c1e-0000-4000-8000-000000000001 has been revoked"
    );

    let e = check_token(&facts(true, false, false, vec![Capability::ViewOnly]), Capability::Admin)
        .unwrap_err();
    assert_eq!(e.message, "capability_token scope [ViewOnly] does not grant required Admin");

    assert!(check_token(&facts(true, false, false, vec![Capability::Admin]), Capability::Wallet).is_ok());
}
