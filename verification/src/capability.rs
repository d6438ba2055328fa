//! Capability scopes, the method-to-capability registry, and token checks.
//!
//! Methods not listed in any table require `Admin` (fail-closed). `Admin`
//! grants every capability.

use vstd::prelude::*;
use crate::json::{JsonValue, JsonModel, json_as_str};
use crate::protocol::{RpcError, CAPABILITY_DENIED, INVALID_PARAMS, is_error};
use crate::text::{concat2, concat3, str_eq};

verus! {

/// A capability scope carried by a session token.
#[derive(PartialEq, Eq, Structural, Clone, Copy, Debug)]
pub enum Capability {
    ViewOnly,
    Wallet,
    AssetWrite,
    Admin,
}

/// Read-only methods.
pub open spec fn view_only_methods() -> Seq<Seq<char>> {
    seq![
        "ping"@, "status"@, "topology.info"@, "topology.neighbors"@, "topology.routing_cost"@,
        "topology.path"@, "blockchain.height"@, "blockchain.block"@, "blockchain.validate"@,
        "caesar.balance"@, "caesar.transactions"@, "caesar.overview"@, "engauge.capacity"@,
        "engauge.traffic"@, "engauge.routing"@, "engauge.throttle"@, "trustchain.identity"@,
        "trustchain.status"@, "trustchain.certs"@, "trustchain.federation"@, "identity.pubkey"@,
        "peer.pubkey"@, "stoq.stats"@, "stoq.connections"@, "stoq.performance"@, "dns.resolve"@,
        "dns.list"@, "asset.list"@, "asset.info"@, "dashboard.list"@, "dashboard.info"@,
        "share.inbox"@, "message.inbox"@, "message.history"@, "network.peers"@, "domain.list"@,
        "gateway.status"@, "gateway.list"@, "system.check_update"@, "intelligence.stats"@,
        "auth.list_sessions"@, "chain.lookup_cross_receipt"@, "config.show"@, "config.get"@,
    ]
}

/// Caesar wallet methods.
pub open spec fn wallet_methods() -> Seq<Seq<char>> {
    seq!["caesar.transfer"@, "caesar.staking"@, "caesar.rewards"@]
}

/// Methods that write asset entries.
pub open spec fn asset_write_methods() -> Seq<Seq<char>> {
    seq![
        "asset.register"@, "store"@, "fetch"@, "share.send"@, "share.accept"@, "share.reject"@,
        "message.send"@, "message.read"@, "dashboard.deploy"@, "dns.register"@,
        "domain.register"@, "domain.join"@, "domain.create"@, "gateway.transfer"@,
    ]
}

/// The capability a caller needs to invoke `method`: read-only methods need
/// `ViewOnly`, wallet methods `Wallet`, asset writes `AssetWrite`, and every
/// other method (privileged or unknown) `Admin`.
pub open spec fn required_capability_spec(method: Seq<char>) -> Capability {
    if view_only_methods().contains(method) {
        Capability::ViewOnly
    } else if wallet_methods().contains(method) {
        Capability::Wallet
    } else if asset_write_methods().contains(method) {
        Capability::AssetWrite
    } else {
        Capability::Admin
    }
}

fn view_only_method_names() -> (r: Vec<&'static str>)
    ensures
        r@.map_values(|s: &str| s@) == view_only_methods(),
{
    let v = vec![
        "ping", "status", "topology.info", "topology.neighbors", "topology.routing_cost",
        "topology.path", "blockchain.height", "blockchain.block", "blockchain.validate",
        "caesar.balance", "caesar.transactions", "caesar.overview", "engauge.capacity",
        "engauge.traffic", "engauge.routing", "engauge.throttle", "trustchain.identity",
        "trustchain.status", "trustchain.certs", "trustchain.federation", "identity.pubkey",
        "peer.pubkey", "stoq.stats", "stoq.connections", "stoq.performance", "dns.resolve",
        "dns.list", "asset.list", "asset.info", "dashboard.list", "dashboard.info",
        "share.inbox", "message.inbox", "message.history", "network.peers", "domain.list",
        "gateway.status", "gateway.list", "system.check_update", "intelligence.stats",
        "auth.list_sessions", "chain.lookup_cross_receipt", "config.show", "config.get",
    ];
    assert(v@.map_values(|s: &str| s@) =~= view_only_methods());
    v
}

fn wallet_method_names() -> (r: Vec<&'static str>)
    ensures
        r@.map_values(|s: &str| s@) == wallet_methods(),
{
    let v = vec!["caesar.transfer", "caesar.staking", "caesar.rewards"];
    assert(v@.map_values(|s: &str| s@) =~= wallet_methods());
    v
}

fn asset_write_method_names() -> (r: Vec<&'static str>)
    ensures
        r@.map_values(|s: &str| s@) == asset_write_methods(),
{
    let v = vec![
        "asset.register", "store", "fetch", "share.send", "share.accept", "share.reject",
        "message.send", "message.read", "dashboard.deploy", "dns.register", "domain.register",
        "domain.join", "domain.create", "gateway.transfer",
    ];
    assert(v@.map_values(|s: &str| s@) =~= asset_write_methods());
    v
}

/// Whether `name` is one of `names`.
fn name_listed(names: &Vec<&'static str>, name: &str) -> (r: bool)
    ensures
        r == names@.map_values(|s: &str| s@).contains(name@),
{
    let ghost views = names@.map_values(|s: &str| s@);
    let mut i: usize = 0;
    while i < names.len()
        invariant
            i <= names@.len(),
            views == names@.map_values(|s: &str| s@),
            forall|k: int| 0 <= k < i ==> views[k] != name@,
        decreases names@.len() - i,
    {
        if str_eq(names[i], name) {
            assert(views[i as int] == name@);
            return true;
        }
        i = i + 1;
    }
    false
}

/// Resolve the capability required to invoke `method` (fail-closed: `Admin`
/// for any method not listed).
pub fn required_capability(method: &str) -> (r: Capability)
    ensures
        r == required_capability_spec(method@),
{
    if name_listed(&view_only_method_names(), method) {
        Capability::ViewOnly
    } else if name_listed(&wallet_method_names(), method) {
        Capability::Wallet
    } else if name_listed(&asset_write_method_names(), method) {
        Capability::AssetWrite
    } else {
        Capability::Admin
    }
}

/// The only method that bypasses capability enforcement: the one that mints tokens.
pub open spec fn always_public_spec(method: Seq<char>) -> bool {
    method == "auth.create_session"@
}

/// Whether `method` bypasses capability enforcement.
pub fn always_public(method: &str) -> (r: bool)
    ensures
        r == always_public_spec(method@),
{
    str_eq(method, "auth.create_session")
}

/// Whether a token granting `granted` may invoke a method needing `required`.
pub open spec fn allows_spec(granted: Seq<Capability>, required: Capability) -> bool {
    granted.contains(required) || granted.contains(Capability::Admin)
}

/// Whether the granted scope covers `required` (`Admin` covers everything).
pub fn allows(granted: &Vec<Capability>, required: Capability) -> (r: bool)
    ensures
        r == allows_spec(granted@, required),
{
    let mut i: usize = 0;
    while i < granted.len()
        invariant
            i <= granted@.len(),
            forall|k: int|
                0 <= k < i ==> granted@[k] != required && granted@[k] != Capability::Admin,
        decreases granted@.len() - i,
    {
        if granted[i] == required || granted[i] == Capability::Admin {
            assert(granted@.contains(granted@[i as int]));
            return true;
        }
        i = i + 1;
    }
    false
}

/// Debug name of a capability.
pub open spec fn capability_name(c: Capability) -> Seq<char> {
    match c {
        Capability::ViewOnly => "ViewOnly"@,
        Capability::Wallet => "Wallet"@,
        Capability::AssetWrite => "AssetWrite"@,
        Capability::Admin => "Admin"@,
    }
}

/// Debug name of a capability.
pub fn capability_name_str(c: Capability) -> (r: &'static str)
    ensures
        r@ == capability_name(c),
{
    match c {
        Capability::ViewOnly => "ViewOnly",
        Capability::Wallet => "Wallet",
        Capability::AssetWrite => "AssetWrite",
        Capability::Admin => "Admin",
    }
}

/// Debug text of a list of capabilities, `[A, B]` style, for the first `n`.
pub open spec fn capability_list_items(caps: Seq<Capability>) -> Seq<char>
    decreases caps.len(),
{
    if caps.len() == 0 {
        Seq::empty()
    } else if caps.len() == 1 {
        capability_name(caps[0])
    } else {
        capability_list_items(caps.drop_last()) + ", "@ + capability_name(caps.last())
    }
}

/// Debug text of a list of capabilities.
pub open spec fn capability_list_text(caps: Seq<Capability>) -> Seq<char> {
    "["@ + capability_list_items(caps) + "]"@
}

/// Debug text of a list of capabilities.
pub fn capability_list_string(caps: &Vec<Capability>) -> (r: String)
    ensures
        r@ == capability_list_text(caps@),
{
    let mut items = String::new();
    let mut i: usize = 0;
    while i < caps.len()
        invariant
            i <= caps@.len(),
            items@ == capability_list_items(caps@.take(i as int)),
        decreases caps@.len() - i,
    {
        let ghost before = items@;
        if i > 0 {
            items.append(", ");
        }
        items.append(capability_name_str(caps[i]));
        proof {
            reveal_strlit(", ");
            let t = caps@.take(i + 1);
            assert(t.drop_last() =~= caps@.take(i as int));
            assert(t.last() == caps@[i as int]);
            if i == 0 {
                assert(before =~= Seq::<char>::empty());
                assert(items@ =~= capability_name(caps@[0]));
            } else {
                assert(items@ =~= before + ", "@ + capability_name(caps@[i as int]));
            }
        }
        i = i + 1;
    }
    assert(caps@.take(caps@.len() as int) =~= caps@);
    let mut r = String::from_str("[");
    r.append(items.as_str());
    r.append("]");
    proof {
        reveal_strlit("[");
        reveal_strlit("]");
        assert(r@ =~= capability_list_text(caps@));
    }
    r
}

/// ASCII lower-casing of one character (`char::to_ascii_lowercase`).
pub open spec fn ascii_lower_char(c: char) -> char {
    if 'A' <= c <= 'Z' {
        ((c as u32) + 32) as char
    } else {
        c
    }
}

/// ASCII lower-casing of a string (`str::to_ascii_lowercase`).
pub open spec fn ascii_lower(s: Seq<char>) -> Seq<char> {
    s.map_values(|c: char| ascii_lower_char(c))
}

/// The capability named by an already lower-cased entry.
pub open spec fn capability_from_lower(s: Seq<char>) -> Option<Capability> {
    if s == "viewonly"@ || s == "view_only"@ || s == "view-only"@ {
        Some(Capability::ViewOnly)
    } else if s == "wallet"@ {
        Some(Capability::Wallet)
    } else if s == "assetwrite"@ || s == "asset_write"@ || s == "asset-write"@ {
        Some(Capability::AssetWrite)
    } else if s == "admin"@ {
        Some(Capability::Admin)
    } else {
        None
    }
}

/// Whether ASCII lower-casing `s` gives `lit` (for an all-lower-case `lit`).
fn ascii_lower_eq(s: &str, lit: &str) -> (r: bool)
    ensures
        r == (ascii_lower(s@) == lit@),
{
    let n = s.unicode_len();
    let m = lit.unicode_len();
    if n != m {
        assert(ascii_lower(s@).len() == n);
        return false;
    }
    let mut i: usize = 0;
    while i < n
        invariant
            n == s@.len(),
            m == lit@.len(),
            n == m,
            i <= n,
            forall|k: int| 0 <= k < i ==> ascii_lower_char(s@[k]) == lit@[k],
        decreases n - i,
    {
        let c = s.get_char(i);
        let lc = if 'A' <= c && c <= 'Z' {
            ((c as u32) + 32) as u8 as char
        } else {
            c
        };
        assert(lc == ascii_lower_char(c)) by {
            if 'A' <= c && c <= 'Z' {
                assert(((c as u32) + 32) as u8 as char == ((c as u32) + 32) as char);
            }
        }
        if lc != lit.get_char(i) {
            assert(ascii_lower(s@)[i as int] != lit@[i as int]);
            return false;
        }
        i = i + 1;
    }
    assert(ascii_lower(s@) =~= lit@);
    true
}

/// The capability named by `s`, compared case-insensitively in ASCII.
pub fn capability_from_name(s: &str) -> (r: Option<Capability>)
    ensures
        r == capability_from_lower(ascii_lower(s@)),
{
    if ascii_lower_eq(s, "viewonly") || ascii_lower_eq(s, "view_only") || ascii_lower_eq(
        s,
        "view-only",
    ) {
        Some(Capability::ViewOnly)
    } else if ascii_lower_eq(s, "wallet") {
        Some(Capability::Wallet)
    } else if ascii_lower_eq(s, "assetwrite") || ascii_lower_eq(s, "asset_write")
        || ascii_lower_eq(s, "asset-write") {
        Some(Capability::AssetWrite)
    } else if ascii_lower_eq(s, "admin") {
        Some(Capability::Admin)
    } else {
        None
    }
}

/// Outcome of reading a `requested_capabilities` array.
pub open spec fn parse_capabilities_spec(raw: JsonModel) -> Result<Seq<Capability>, Seq<char>> {
    match raw {
        JsonModel::Array(items) => parse_capability_items(items),
        _ => Err("'requested_capabilities' must be an array of strings"@),
    }
}

/// Capabilities named by `items`, failing at the first bad entry.
pub open spec fn parse_capability_items(items: Seq<JsonModel>) -> Result<Seq<Capability>, Seq<char>>
    decreases items.len(),
{
    if items.len() == 0 {
        Ok(Seq::empty())
    } else {
        match parse_capability_items(items.drop_last()) {
            Err(e) => Err(e),
            Ok(caps) => match json_as_str(items.last()) {
                None => Err("capability entries must be strings"@),
                Some(s) => match capability_from_lower(ascii_lower(s)) {
                    Some(c) => Ok(caps.push(c)),
                    None => Err(
                        "unknown capability '"@ + ascii_lower(s)
                            + "': expected viewonly|wallet|assetwrite|admin"@,
                    ),
                },
            },
        }
    }
}

/// ASCII lower-case copy of `s`.
pub fn to_ascii_lowercase(s: &str) -> (r: String)
    ensures
        r@ == ascii_lower(s@),
{
    let n = s.unicode_len();
    let mut out = String::new();
    let mut i: usize = 0;
    while i < n
        invariant
            n == s@.len(),
            i <= n,
            out@ == ascii_lower(s@.take(i as int)),
        decreases n - i,
    {
        let c = s.get_char(i);
        let lc = if 'A' <= c && c <= 'Z' {
            ((c as u32) + 32) as u8 as char
        } else {
            c
        };
        assert(lc == ascii_lower_char(c)) by {
            if 'A' <= c && c <= 'Z' {
                assert(((c as u32) + 32) as u8 as char == ((c as u32) + 32) as char);
            }
        }
        crate::text::push_char(&mut out, lc);
        assert(ascii_lower(s@.take(i + 1)) =~= ascii_lower(s@.take(i as int)).push(lc));
        i = i + 1;
    }
    assert(s@.take(n as int) =~= s@);
    out
}

/// Parse the `requested_capabilities` parameter of `auth.create_session`.
pub fn parse_capabilities(raw: &JsonValue) -> (r: Result<Vec<Capability>, RpcError>)
    ensures
        match parse_capabilities_spec(raw@) {
            Ok(caps) => r matches Ok(v) && v@ == caps,
            Err(msg) => r matches Err(e) && is_error(e, INVALID_PARAMS, msg),
        },
{
    match raw {
        JsonValue::Array(items) => {
            proof {
                crate::json::lemma_models_of_len(items@);
            }
            let ghost ms = crate::json::models_of(items@);
            let mut caps: Vec<Capability> = Vec::new();
            let mut i: usize = 0;
            while i < items.len()
                invariant
                    i <= items@.len(),
                    ms == crate::json::models_of(items@),
                    ms.len() == items@.len(),
                    forall|k: int| 0 <= k < items@.len() ==> #[trigger] ms[k] == crate::json::model_of(items@[k]),
                    parse_capability_items(ms.take(i as int)) == Ok::<Seq<Capability>, Seq<char>>(caps@),
                    raw@ == JsonModel::Array(ms),
                decreases items@.len() - i,
            {
                let ghost t = ms.take(i + 1);
                assert(t.drop_last() =~= ms.take(i as int));
                assert(t.last() == crate::json::model_of(items@[i as int]));
                match items[i].as_str() {
                    None => {
                        proof {
                            lemma_parse_items_prefix_err(ms, i + 1);
                        }
                        let msg = String::from_str("capability entries must be strings");
                        proof {
                            reveal_strlit("capability entries must be strings");
                        }
                        return Err(RpcError::new(INVALID_PARAMS, msg));
                    },
                    Some(s) => match capability_from_name(s) {
                        Some(c) => {
                            caps.push(c);
                        },
                        None => {
                            proof {
                                lemma_parse_items_prefix_err(ms, i + 1);
                            }
                            let lower = to_ascii_lowercase(s);
                            let msg = concat3(
                                "unknown capability '",
                                lower.as_str(),
                                "': expected viewonly|wallet|assetwrite|admin",
                            );
                            proof {
                                reveal_strlit("unknown capability '");
                                reveal_strlit("': expected viewonly|wallet|assetwrite|admin");
                            }
                            return Err(RpcError::new(INVALID_PARAMS, msg));
                        },
                    },
                }
                i = i + 1;
            }
            assert(ms.take(items@.len() as int) =~= ms);
            Ok(caps)
        },
        _ => {
            let msg = String::from_str("'requested_capabilities' must be an array of strings");
            proof {
                reveal_strlit("'requested_capabilities' must be an array of strings");
            }
            Err(RpcError::new(INVALID_PARAMS, msg))
        },
    }
}

/// Once a prefix fails, every longer prefix fails with the same message.
proof fn lemma_parse_items_prefix_err(ms: Seq<JsonModel>, k: int)
    requires
        0 <= k <= ms.len(),
        parse_capability_items(ms.take(k)) is Err,
    ensures
        parse_capability_items(ms) == parse_capability_items(ms.take(k)),
    decreases ms.len() - k,
{
    if k < ms.len() {
        let t = ms.take(k + 1);
        assert(t.drop_last() =~= ms.take(k));
        lemma_parse_items_prefix_err(ms, k + 1);
    } else {
        assert(ms.take(k) =~= ms);
    }
}

/// What is known of a presented token once it has been decoded and checked
/// against the daemon's key, the clock, and the revocation registry.
pub struct TokenFacts {
    /// The key the token's signature was checked under.
    pub checked_key: Vec<u8>,
    /// The token's signature verifies under `checked_key`.
    pub signature_valid: bool,
    /// The token's validity window has passed.
    pub expired: bool,
    /// The token's session has been revoked.
    pub revoked: bool,
    /// Display form of the token's session id.
    pub session_id: String,
    /// The capabilities the token grants.
    pub capabilities: Vec<Capability>,
}

/// The verdict on a decoded token, in the order the checks are made:
/// signature, expiry, revocation, scope.
pub open spec fn token_verdict(facts: TokenFacts, required: Capability) -> Result<(), Seq<char>> {
    if !facts.signature_valid {
        Err("capability_token signature verification failed"@)
    } else if facts.expired {
        Err("capability_token expired"@)
    } else if facts.revoked {
        Err("capability_token session "@ + facts.session_id@ + " has been revoked"@)
    } else if !allows_spec(facts.capabilities@, required) {
        Err(
            "capability_token scope "@ + capability_list_text(facts.capabilities@)
                + " does not grant required "@ + capability_name(required),
        )
    } else {
        Ok(())
    }
}

/// Check a decoded token against the policy; every refusal is `CAPABILITY_DENIED`.
pub fn check_token(facts: &TokenFacts, required: Capability) -> (r: Result<(), RpcError>)
    ensures
        match token_verdict(*facts, required) {
            Ok(()) => r is Ok,
            Err(msg) => r matches Err(e) && is_error(e, CAPABILITY_DENIED, msg),
        },
{
    if !facts.signature_valid {
        proof {
            reveal_strlit("capability_token signature verification failed");
        }
        return Err(
            RpcError::new(
                CAPABILITY_DENIED,
                String::from_str("capability_token signature verification failed"),
            ),
        );
    }
    if facts.expired {
        proof {
            reveal_strlit("capability_token expired");
        }
        return Err(RpcError::new(CAPABILITY_DENIED, String::from_str("capability_token expired")));
    }
    if facts.revoked {
        proof {
            reveal_strlit("capability_token session ");
            reveal_strlit(" has been revoked");
        }
        return Err(
            RpcError::new(
                CAPABILITY_DENIED,
                concat3(
                    "capability_token session ",
                    facts.session_id.as_str(),
                    " has been revoked",
                ),
            ),
        );
    }
    if !allows(&facts.capabilities, required) {
        let list = capability_list_string(&facts.capabilities);
        let head = concat3("capability_token scope ", list.as_str(), " does not grant required ");
        let msg = concat2(head.as_str(), capability_name_str(required));
        proof {
            reveal_strlit("capability_token scope ");
            reveal_strlit(" does not grant required ");
        }
        return Err(RpcError::new(CAPABILITY_DENIED, msg));
    }
    Ok(())
}

/// The read-only methods of the registry, each by name, need only
/// `ViewOnly`: pings and status, topology, blockchain, Caesar, Engauge,
/// TrustChain, identity, STOQ, DNS, asset, dashboard, share, message,
/// network, domain, gateway, update-check, intelligence, session-list,
/// cross-chain receipt and configuration reads.
pub proof fn law_read_only_methods_need_view_only()
    ensures
        required_capability_spec("ping"@) == Capability::ViewOnly,
        required_capability_spec("status"@) == Capability::ViewOnly,
        required_capability_spec("topology.info"@) == Capability::ViewOnly,
        required_capability_spec("topology.neighbors"@) == Capability::ViewOnly,
        required_capability_spec("topology.routing_cost"@) == Capability::ViewOnly,
        required_capability_spec("topology.path"@) == Capability::ViewOnly,
        required_capability_spec("blockchain.height"@) == Capability::ViewOnly,
        required_capability_spec("blockchain.block"@) == Capability::ViewOnly,
        required_capability_spec("blockchain.validate"@) == Capability::ViewOnly,
        required_capability_spec("caesar.balance"@) == Capability::ViewOnly,
        required_capability_spec("caesar.transactions"@) == Capability::ViewOnly,
        required_capability_spec("caesar.overview"@) == Capability::ViewOnly,
        required_capability_spec("engauge.capacity"@) == Capability::ViewOnly,
        required_capability_spec("engauge.traffic"@) == Capability::ViewOnly,
        required_capability_spec("engauge.routing"@) == Capability::ViewOnly,
        required_capability_spec("engauge.throttle"@) == Capability::ViewOnly,
        required_capability_spec("trustchain.identity"@) == Capability::ViewOnly,
        required_capability_spec("trustchain.status"@) == Capability::ViewOnly,
        required_capability_spec("trustchain.certs"@) == Capability::ViewOnly,
        required_capability_spec("trustchain.federation"@) == Capability::ViewOnly,
        required_capability_spec("identity.pubkey"@) == Capability::ViewOnly,
        required_capability_spec("peer.pubkey"@) == Capability::ViewOnly,
        required_capability_spec("stoq.stats"@) == Capability::ViewOnly,
        required_capability_spec("stoq.connections"@) == Capability::ViewOnly,
        required_capability_spec("stoq.performance"@) == Capability::ViewOnly,
        required_capability_spec("dns.resolve"@) == Capability::ViewOnly,
        required_capability_spec("dns.list"@) == Capability::ViewOnly,
        required_capability_spec("asset.list"@) == Capability::ViewOnly,
        required_capability_spec("asset.info"@) == Capability::ViewOnly,
        required_capability_spec("dashboard.list"@) == Capability::ViewOnly,
        required_capability_spec("dashboard.info"@) == Capability::ViewOnly,
        required_capability_spec("share.inbox"@) == Capability::ViewOnly,
        required_capability_spec("message.inbox"@) == Capability::ViewOnly,
        required_capability_spec("message.history"@) == Capability::ViewOnly,
        required_capability_spec("network.peers"@) == Capability::ViewOnly,
        required_capability_spec("domain.list"@) == Capability::ViewOnly,
        required_capability_spec("gateway.status"@) == Capability::ViewOnly,
        required_capability_spec("gateway.list"@) == Capability::ViewOnly,
        required_capability_spec("system.check_update"@) == Capability::ViewOnly,
        required_capability_spec("intelligence.stats"@) == Capability::ViewOnly,
        required_capability_spec("auth.list_sessions"@) == Capability::ViewOnly,
        required_capability_spec("chain.lookup_cross_receipt"@) == Capability::ViewOnly,
        required_capability_spec("config.show"@) == Capability::ViewOnly,
        required_capability_spec("config.get"@) == Capability::ViewOnly,
{
    assert(view_only_methods()[0] == "ping"@);
    assert(view_only_methods()[1] == "status"@);
    assert(view_only_methods()[2] == "topology.info"@);
    assert(view_only_methods()[3] == "topology.neighbors"@);
    assert(view_only_methods()[4] == "topology.routing_cost"@);
    assert(view_only_methods()[5] == "topology.path"@);
    assert(view_only_methods()[6] == "blockchain.height"@);
    assert(view_only_methods()[7] == "blockchain.block"@);
    assert(view_only_methods()[8] == "blockchain.validate"@);
    assert(view_only_methods()[9] == "caesar.balance"@);
    assert(view_only_methods()[10] == "caesar.transactions"@);
    assert(view_only_methods()[11] == "caesar.overview"@);
    assert(view_only_methods()[12] == "engauge.capacity"@);
    assert(view_only_methods()[13] == "engauge.traffic"@);
    assert(view_only_methods()[14] == "engauge.routing"@);
    assert(view_only_methods()[15] == "engauge.throttle"@);
    assert(view_only_methods()[16] == "trustchain.identity"@);
    assert(view_only_methods()[17] == "trustchain.status"@);
    assert(view_only_methods()[18] == "trustchain.certs"@);
    assert(view_only_methods()[19] == "trustchain.federation"@);
    assert(view_only_methods()[20] == "identity.pubkey"@);
    assert(view_only_methods()[21] == "peer.pubkey"@);
    assert(view_only_methods()[22] == "stoq.stats"@);
    assert(view_only_methods()[23] == "stoq.connections"@);
    assert(view_only_methods()[24] == "stoq.performance"@);
    assert(view_only_methods()[25] == "dns.resolve"@);
    assert(view_only_methods()[26] == "dns.list"@);
    assert(view_only_methods()[27] == "asset.list"@);
    assert(view_only_methods()[28] == "asset.info"@);
    assert(view_only_methods()[29] == "dashboard.list"@);
    assert(view_only_methods()[30] == "dashboard.info"@);
    assert(view_only_methods()[31] == "share.inbox"@);
    assert(view_only_methods()[32] == "message.inbox"@);
    assert(view_only_methods()[33] == "message.history"@);
    assert(view_only_methods()[34] == "network.peers"@);
    assert(view_only_methods()[35] == "domain.list"@);
    assert(view_only_methods()[36] == "gateway.status"@);
    assert(view_only_methods()[37] == "gateway.list"@);
    assert(view_only_methods()[38] == "system.check_update"@);
    assert(view_only_methods()[39] == "intelligence.stats"@);
    assert(view_only_methods()[40] == "auth.list_sessions"@);
    assert(view_only_methods()[41] == "chain.lookup_cross_receipt"@);
    assert(view_only_methods()[42] == "config.show"@);
    assert(view_only_methods()[43] == "config.get"@);
}

proof fn lemma_unlisted_caesar_transfer()
    ensures
        !view_only_methods().contains("caesar.transfer"@),
{
    reveal_strlit("caesar.transfer");
    reveal_strlit("ping");
    reveal_strlit("status");
    reveal_strlit("topology.info");
    reveal_strlit("topology.neighbors");
    reveal_strlit("topology.routing_cost");
    reveal_strlit("topology.path");
    reveal_strlit("blockchain.height");
    reveal_strlit("blockchain.block");
    reveal_strlit("blockchain.validate");
    reveal_strlit("caesar.balance");
    reveal_strlit("caesar.transactions");
    reveal_strlit("caesar.overview");
    reveal_strlit("engauge.capacity");
    reveal_strlit("engauge.traffic");
    reveal_strlit("engauge.routing");
    reveal_strlit("engauge.throttle");
    reveal_strlit("trustchain.identity");
    reveal_strlit("trustchain.status");
    reveal_strlit("trustchain.certs");
    reveal_strlit("trustchain.federation");
    reveal_strlit("identity.pubkey");
    reveal_strlit("peer.pubkey");
    reveal_strlit("stoq.stats");
    reveal_strlit("stoq.connections");
    reveal_strlit("stoq.performance");
    reveal_strlit("dns.resolve");
    reveal_strlit("dns.list");
    reveal_strlit("asset.list");
    reveal_strlit("asset.info");
    reveal_strlit("dashboard.list");
    reveal_strlit("dashboard.info");
    reveal_strlit("share.inbox");
    reveal_strlit("message.inbox");
    reveal_strlit("message.history");
    reveal_strlit("network.peers");
    reveal_strlit("domain.list");
    reveal_strlit("gateway.status");
    reveal_strlit("gateway.list");
    reveal_strlit("system.check_update");
    reveal_strlit("intelligence.stats");
    reveal_strlit("auth.list_sessions");
    reveal_strlit("chain.lookup_cross_receipt");
    reveal_strlit("config.show");
    reveal_strlit("config.get");
    assert("caesar.transfer"@[7] != "caesar.overview"@[7]);
    assert("caesar.transfer"@[0] != "engauge.traffic"@[0]);
    assert("caesar.transfer"@[0] != "engauge.routing"@[0]);
    assert("caesar.transfer"@[0] != "identity.pubkey"@[0]);
    assert("caesar.transfer"@[0] != "message.history"@[0]);
    assert forall|i: int| 0 <= i < view_only_methods().len() implies view_only_methods()[i] != "caesar.transfer"@ by {
        assert(view_only_methods()[i].len() != "caesar.transfer"@.len() || view_only_methods()[i] != "caesar.transfer"@);
    }
}

proof fn lemma_unlisted_caesar_staking()
    ensures
        !view_only_methods().contains("caesar.staking"@),
{
    reveal_strlit("caesar.staking");
    reveal_strlit("ping");
    reveal_strlit("status");
    reveal_strlit("topology.info");
    reveal_strlit("topology.neighbors");
    reveal_strlit("topology.routing_cost");
    reveal_strlit("topology.path");
    reveal_strlit("blockchain.height");
    reveal_strlit("blockchain.block");
    reveal_strlit("blockchain.validate");
    reveal_strlit("caesar.balance");
    reveal_strlit("caesar.transactions");
    reveal_strlit("caesar.overview");
    reveal_strlit("engauge.capacity");
    reveal_strlit("engauge.traffic");
    reveal_strlit("engauge.routing");
    reveal_strlit("engauge.throttle");
    reveal_strlit("trustchain.identity");
    reveal_strlit("trustchain.status");
    reveal_strlit("trustchain.certs");
    reveal_strlit("trustchain.federation");
    reveal_strlit("identity.pubkey");
    reveal_strlit("peer.pubkey");
    reveal_strlit("stoq.stats");
    reveal_strlit("stoq.connections");
    reveal_strlit("stoq.performance");
    reveal_strlit("dns.resolve");
    reveal_strlit("dns.list");
    reveal_strlit("asset.list");
    reveal_strlit("asset.info");
    reveal_strlit("dashboard.list");
    reveal_strlit("dashboard.info");
    reveal_strlit("share.inbox");
    reveal_strlit("message.inbox");
    reveal_strlit("message.history");
    reveal_strlit("network.peers");
    reveal_strlit("domain.list");
    reveal_strlit("gateway.status");
    reveal_strlit("gateway.list");
    reveal_strlit("system.check_update");
    reveal_strlit("intelligence.stats");
    reveal_strlit("auth.list_sessions");
    reveal_strlit("chain.lookup_cross_receipt");
    reveal_strlit("config.show");
    reveal_strlit("config.get");
    assert("caesar.staking"@[7] != "caesar.balance"@[7]);
    assert("caesar.staking"@[0] != "dashboard.list"@[0]);
    assert("caesar.staking"@[0] != "dashboard.info"@[0]);
    assert("caesar.staking"@[0] != "gateway.status"@[0]);
    assert forall|i: int| 0 <= i < view_only_methods().len() implies view_only_methods()[i] != "caesar.staking"@ by {
        assert(view_only_methods()[i].len() != "caesar.staking"@.len() || view_only_methods()[i] != "caesar.staking"@);
    }
}

proof fn lemma_unlisted_caesar_rewards()
    ensures
        !view_only_methods().contains("caesar.rewards"@),
{
    reveal_strlit("caesar.rewards");
    reveal_strlit("ping");
    reveal_strlit("status");
    reveal_strlit("topology.info");
    reveal_strlit("topology.neighbors");
    reveal_strlit("topology.routing_cost");
    reveal_strlit("topology.path");
    reveal_strlit("blockchain.height");
    reveal_strlit("blockchain.block");
    reveal_strlit("blockchain.validate");
    reveal_strlit("caesar.balance");
    reveal_strlit("caesar.transactions");
    reveal_strlit("caesar.overview");
    reveal_strlit("engauge.capacity");
    reveal_strlit("engauge.traffic");
    reveal_strlit("engauge.routing");
    reveal_strlit("engauge.throttle");
    reveal_strlit("trustchain.identity");
    reveal_strlit("trustchain.status");
    reveal_strlit("trustchain.certs");
    reveal_strlit("trustchain.federation");
    reveal_strlit("identity.pubkey");
    reveal_strlit("peer.pubkey");
    reveal_strlit("stoq.stats");
    reveal_strlit("stoq.connections");
    reveal_strlit("stoq.performance");
    reveal_strlit("dns.resolve");
    reveal_strlit("dns.list");
    reveal_strlit("asset.list");
    reveal_strlit("asset.info");
    reveal_strlit("dashboard.list");
    reveal_strlit("dashboard.info");
    reveal_strlit("share.inbox");
    reveal_strlit("message.inbox");
    reveal_strlit("message.history");
    reveal_strlit("network.peers");
    reveal_strlit("domain.list");
    reveal_strlit("gateway.status");
    reveal_strlit("gateway.list");
    reveal_strlit("system.check_update");
    reveal_strlit("intelligence.stats");
    reveal_strlit("auth.list_sessions");
    reveal_strlit("chain.lookup_cross_receipt");
    reveal_strlit("config.show");
    reveal_strlit("config.get");
    assert("caesar.rewards"@[7] != "caesar.balance"@[7]);
    assert("caesar.rewards"@[0] != "dashboard.list"@[0]);
    assert("caesar.rewards"@[0] != "dashboard.info"@[0]);
    assert("caesar.rewards"@[0] != "gateway.status"@[0]);
    assert forall|i: int| 0 <= i < view_only_methods().len() implies view_only_methods()[i] != "caesar.rewards"@ by {
        assert(view_only_methods()[i].len() != "caesar.rewards"@.len() || view_only_methods()[i] != "caesar.rewards"@);
    }
}

proof fn lemma_unlisted_asset_register()
    ensures
        !view_only_methods().contains("asset.register"@),
        !wallet_methods().contains("asset.register"@),
{
    reveal_strlit("asset.register");
    reveal_strlit("ping");
    reveal_strlit("status");
    reveal_strlit("topology.info");
    reveal_strlit("topology.neighbors");
    reveal_strlit("topology.routing_cost");
    reveal_strlit("topology.path");
    reveal_strlit("blockchain.height");
    reveal_strlit("blockchain.block");
    reveal_strlit("blockchain.validate");
    reveal_strlit("caesar.balance");
    reveal_strlit("caesar.transactions");
    reveal_strlit("caesar.overview");
    reveal_strlit("engauge.capacity");
    reveal_strlit("engauge.traffic");
    reveal_strlit("engauge.routing");
    reveal_strlit("engauge.throttle");
    reveal_strlit("trustchain.identity");
    reveal_strlit("trustchain.status");
    reveal_strlit("trustchain.certs");
    reveal_strlit("trustchain.federation");
    reveal_strlit("identity.pubkey");
    reveal_strlit("peer.pubkey");
    reveal_strlit("stoq.stats");
    reveal_strlit("stoq.connections");
    reveal_strlit("stoq.performance");
    reveal_strlit("dns.resolve");
    reveal_strlit("dns.list");
    reveal_strlit("asset.list");
    reveal_strlit("asset.info");
    reveal_strlit("dashboard.list");
    reveal_strlit("dashboard.info");
    reveal_strlit("share.inbox");
    reveal_strlit("message.inbox");
    reveal_strlit("message.history");
    reveal_strlit("network.peers");
    reveal_strlit("domain.list");
    reveal_strlit("gateway.status");
    reveal_strlit("gateway.list");
    reveal_strlit("system.check_update");
    reveal_strlit("intelligence.stats");
    reveal_strlit("auth.list_sessions");
    reveal_strlit("chain.lookup_cross_receipt");
    reveal_strlit("config.show");
    reveal_strlit("config.get");
    reveal_strlit("caesar.transfer");
    reveal_strlit("caesar.staking");
    reveal_strlit("caesar.rewards");
    assert("asset.register"@[0] != "caesar.balance"@[0]);
    assert("asset.register"@[0] != "dashboard.list"@[0]);
    assert("asset.register"@[0] != "dashboard.info"@[0]);
    assert("asset.register"@[0] != "gateway.status"@[0]);
    assert("asset.register"@[0] != "caesar.staking"@[0]);
    assert("asset.register"@[0] != "caesar.rewards"@[0]);
    assert forall|i: int| 0 <= i < view_only_methods().len() implies view_only_methods()[i] != "asset.register"@ by {
        assert(view_only_methods()[i].len() != "asset.register"@.len() || view_only_methods()[i] != "asset.register"@);
    }
    assert forall|i: int| 0 <= i < wallet_methods().len() implies wallet_methods()[i] != "asset.register"@ by {
        assert(wallet_methods()[i].len() != "asset.register"@.len() || wallet_methods()[i] != "asset.register"@);
    }
}

proof fn lemma_unlisted_store()
    ensures
        !view_only_methods().contains("store"@),
        !wallet_methods().contains("store"@),
{
    reveal_strlit("store");
    reveal_strlit("ping");
    reveal_strlit("status");
    reveal_strlit("topology.info");
    reveal_strlit("topology.neighbors");
    reveal_strlit("topology.routing_cost");
    reveal_strlit("topology.path");
    reveal_strlit("blockchain.height");
    reveal_strlit("blockchain.block");
    reveal_strlit("blockchain.validate");
    reveal_strlit("caesar.balance");
    reveal_strlit("caesar.transactions");
    reveal_strlit("caesar.overview");
    reveal_strlit("engauge.capacity");
    reveal_strlit("engauge.traffic");
    reveal_strlit("engauge.routing");
    reveal_strlit("engauge.throttle");
    reveal_strlit("trustchain.identity");
    reveal_strlit("trustchain.status");
    reveal_strlit("trustchain.certs");
    reveal_strlit("trustchain.federation");
    reveal_strlit("identity.pubkey");
    reveal_strlit("peer.pubkey");
    reveal_strlit("stoq.stats");
    reveal_strlit("stoq.connections");
    reveal_strlit("stoq.performance");
    reveal_strlit("dns.resolve");
    reveal_strlit("dns.list");
    reveal_strlit("asset.list");
    reveal_strlit("asset.info");
    reveal_strlit("dashboard.list");
    reveal_strlit("dashboard.info");
    reveal_strlit("share.inbox");
    reveal_strlit("message.inbox");
    reveal_strlit("message.history");
    reveal_strlit("network.peers");
    reveal_strlit("domain.list");
    reveal_strlit("gateway.status");
    reveal_strlit("gateway.list");
    reveal_strlit("system.check_update");
    reveal_strlit("intelligence.stats");
    reveal_strlit("auth.list_sessions");
    reveal_strlit("chain.lookup_cross_receipt");
    reveal_strlit("config.show");
    reveal_strlit("config.get");
    reveal_strlit("caesar.transfer");
    reveal_strlit("caesar.staking");
    reveal_strlit("caesar.rewards");
    assert forall|i: int| 0 <= i < view_only_methods().len() implies view_only_methods()[i] != "store"@ by {
        assert(view_only_methods()[i].len() != "store"@.len() || view_only_methods()[i] != "store"@);
    }
    assert forall|i: int| 0 <= i < wallet_methods().len() implies wallet_methods()[i] != "store"@ by {
        assert(wallet_methods()[i].len() != "store"@.len() || wallet_methods()[i] != "store"@);
    }
}

proof fn lemma_unlisted_fetch()
    ensures
        !view_only_methods().contains("fetch"@),
        !wallet_methods().contains("fetch"@),
{
    reveal_strlit("fetch");
    reveal_strlit("ping");
    reveal_strlit("status");
    reveal_strlit("topology.info");
    reveal_strlit("topology.neighbors");
    reveal_strlit("topology.routing_cost");
    reveal_strlit("topology.path");
    reveal_strlit("blockchain.height");
    reveal_strlit("blockchain.block");
    reveal_strlit("blockchain.validate");
    reveal_strlit("caesar.balance");
    reveal_strlit("caesar.transactions");
    reveal_strlit("caesar.overview");
    reveal_strlit("engauge.capacity");
    reveal_strlit("engauge.traffic");
    reveal_strlit("engauge.routing");
    reveal_strlit("engauge.throttle");
    reveal_strlit("trustchain.identity");
    reveal_strlit("trustchain.status");
    reveal_strlit("trustchain.certs");
    reveal_strlit("trustchain.federation");
    reveal_strlit("identity.pubkey");
    reveal_strlit("peer.pubkey");
    reveal_strlit("stoq.stats");
    reveal_strlit("stoq.connections");
    reveal_strlit("stoq.performance");
    reveal_strlit("dns.resolve");
    reveal_strlit("dns.list");
    reveal_strlit("asset.list");
    reveal_strlit("asset.info");
    reveal_strlit("dashboard.list");
    reveal_strlit("dashboard.info");
    reveal_strlit("share.inbox");
    reveal_strlit("message.inbox");
    reveal_strlit("message.history");
    reveal_strlit("network.peers");
    reveal_strlit("domain.list");
    reveal_strlit("gateway.status");
    reveal_strlit("gateway.list");
    reveal_strlit("system.check_update");
    reveal_strlit("intelligence.stats");
    reveal_strlit("auth.list_sessions");
    reveal_strlit("chain.lookup_cross_receipt");
    reveal_strlit("config.show");
    reveal_strlit("config.get");
    reveal_strlit("caesar.transfer");
    reveal_strlit("caesar.staking");
    reveal_strlit("caesar.rewards");
    assert forall|i: int| 0 <= i < view_only_methods().len() implies view_only_methods()[i] != "fetch"@ by {
        assert(view_only_methods()[i].len() != "fetch"@.len() || view_only_methods()[i] != "fetch"@);
    }
    assert forall|i: int| 0 <= i < wallet_methods().len() implies wallet_methods()[i] != "fetch"@ by {
        assert(wallet_methods()[i].len() != "fetch"@.len() || wallet_methods()[i] != "fetch"@);
    }
}

proof fn lemma_unlisted_share_send()
    ensures
        !view_only_methods().contains("share.send"@),
        !wallet_methods().contains("share.send"@),
{
    reveal_strlit("share.send");
    reveal_strlit("ping");
    reveal_strlit("status");
    reveal_strlit("topology.info");
    reveal_strlit("topology.neighbors");
    reveal_strlit("topology.routing_cost");
    reveal_strlit("topology.path");
    reveal_strlit("blockchain.height");
    reveal_strlit("blockchain.block");
    reveal_strlit("blockchain.validate");
    reveal_strlit("caesar.balance");
    reveal_strlit("caesar.transactions");
    reveal_strlit("caesar.overview");
    reveal_strlit("engauge.capacity");
    reveal_strlit("engauge.traffic");
    reveal_strlit("engauge.routing");
    reveal_strlit("engauge.throttle");
    reveal_strlit("trustchain.identity");
    reveal_strlit("trustchain.status");
    reveal_strlit("trustchain.certs");
    reveal_strlit("trustchain.federation");
    reveal_strlit("identity.pubkey");
    reveal_strlit("peer.pubkey");
    reveal_strlit("stoq.stats");
    reveal_strlit("stoq.connections");
    reveal_strlit("stoq.performance");
    reveal_strlit("dns.resolve");
    reveal_strlit("dns.list");
    reveal_strlit("asset.list");
    reveal_strlit("asset.info");
    reveal_strlit("dashboard.list");
    reveal_strlit("dashboard.info");
    reveal_strlit("share.inbox");
    reveal_strlit("message.inbox");
    reveal_strlit("message.history");
    reveal_strlit("network.peers");
    reveal_strlit("domain.list");
    reveal_strlit("gateway.status");
    reveal_strlit("gateway.list");
    reveal_strlit("system.check_update");
    reveal_strlit("intelligence.stats");
    reveal_strlit("auth.list_sessions");
    reveal_strlit("chain.lookup_cross_receipt");
    reveal_strlit("config.show");
    reveal_strlit("config.get");
    reveal_strlit("caesar.transfer");
    reveal_strlit("caesar.staking");
    reveal_strlit("caesar.rewards");
    assert("share.send"@[1] != "stoq.stats"@[1]);
    assert("share.send"@[0] != "asset.list"@[0]);
    assert("share.send"@[0] != "asset.info"@[0]);
    assert("share.send"@[0] != "config.get"@[0]);
    assert forall|i: int| 0 <= i < view_only_methods().len() implies view_only_methods()[i] != "share.send"@ by {
        assert(view_only_methods()[i].len() != "share.send"@.len() || view_only_methods()[i] != "share.send"@);
    }
    assert forall|i: int| 0 <= i < wallet_methods().len() implies wallet_methods()[i] != "share.send"@ by {
        assert(wallet_methods()[i].len() != "share.send"@.len() || wallet_methods()[i] != "share.send"@);
    }
}

proof fn lemma_unlisted_share_accept()
    ensures
        !view_only_methods().contains("share.accept"@),
        !wallet_methods().contains("share.accept"@),
{
    reveal_strlit("share.accept");
    reveal_strlit("ping");
    reveal_strlit("status");
    reveal_strlit("topology.info");
    reveal_strlit("topology.neighbors");
    reveal_strlit("topology.routing_cost");
    reveal_strlit("topology.path");
    reveal_strlit("blockchain.height");
    reveal_strlit("blockchain.block");
    reveal_strlit("blockchain.validate");
    reveal_strlit("caesar.balance");
    reveal_strlit("caesar.transactions");
    reveal_strlit("caesar.overview");
    reveal_strlit("engauge.capacity");
    reveal_strlit("engauge.traffic");
    reveal_strlit("engauge.routing");
    reveal_strlit("engauge.throttle");
    reveal_strlit("trustchain.identity");
    reveal_strlit("trustchain.status");
    reveal_strlit("trustchain.certs");
    reveal_strlit("trustchain.federation");
    reveal_strlit("identity.pubkey");
    reveal_strlit("peer.pubkey");
    reveal_strlit("stoq.stats");
    reveal_strlit("stoq.connections");
    reveal_strlit("stoq.performance");
    reveal_strlit("dns.resolve");
    reveal_strlit("dns.list");
    reveal_strlit("asset.list");
    reveal_strlit("asset.info");
    reveal_strlit("dashboard.list");
    reveal_strlit("dashboard.info");
    reveal_strlit("share.inbox");
    reveal_strlit("message.inbox");
    reveal_strlit("message.history");
    reveal_strlit("network.peers");
    reveal_strlit("domain.list");
    reveal_strlit("gateway.status");
    reveal_strlit("gateway.list");
    reveal_strlit("system.check_update");
    reveal_strlit("intelligence.stats");
    reveal_strlit("auth.list_sessions");
    reveal_strlit("chain.lookup_cross_receipt");
    reveal_strlit("config.show");
    reveal_strlit("config.get");
    reveal_strlit("caesar.transfer");
    reveal_strlit("caesar.staking");
    reveal_strlit("caesar.rewards");
    assert("share.accept"@[0] != "gateway.list"@[0]);
    assert forall|i: int| 0 <= i < view_only_methods().len() implies view_only_methods()[i] != "share.accept"@ by {
        assert(view_only_methods()[i].len() != "share.accept"@.len() || view_only_methods()[i] != "share.accept"@);
    }
    assert forall|i: int| 0 <= i < wallet_methods().len() implies wallet_methods()[i] != "share.accept"@ by {
        assert(wallet_methods()[i].len() != "share.accept"@.len() || wallet_methods()[i] != "share.accept"@);
    }
}

proof fn lemma_unlisted_share_reject()
    ensures
        !view_only_methods().contains("share.reject"@),
        !wallet_methods().contains("share.reject"@),
{
    reveal_strlit("share.reject");
    reveal_strlit("ping");
    reveal_strlit("status");
    reveal_strlit("topology.info");
    reveal_strlit("topology.neighbors");
    reveal_strlit("topology.routing_cost");
    reveal_strlit("topology.path");
    reveal_strlit("blockchain.height");
    reveal_strlit("blockchain.block");
    reveal_strlit("blockchain.validate");
    reveal_strlit("caesar.balance");
    reveal_strlit("caesar.transactions");
    reveal_strlit("caesar.overview");
    reveal_strlit("engauge.capacity");
    reveal_strlit("engauge.traffic");
    reveal_strlit("engauge.routing");
    reveal_strlit("engauge.throttle");
    reveal_strlit("trustchain.identity");
    reveal_strlit("trustchain.status");
    reveal_strlit("trustchain.certs");
    reveal_strlit("trustchain.federation");
    reveal_strlit("identity.pubkey");
    reveal_strlit("peer.pubkey");
    reveal_strlit("stoq.stats");
    reveal_strlit("stoq.connections");
    reveal_strlit("stoq.performance");
    reveal_strlit("dns.resolve");
    reveal_strlit("dns.list");
    reveal_strlit("asset.list");
    reveal_strlit("asset.info");
    reveal_strlit("dashboard.list");
    reveal_strlit("dashboard.info");
    reveal_strlit("share.inbox");
    reveal_strlit("message.inbox");
    reveal_strlit("message.history");
    reveal_strlit("network.peers");
    reveal_strlit("domain.list");
    reveal_strlit("gateway.status");
    reveal_strlit("gateway.list");
    reveal_strlit("system.check_update");
    reveal_strlit("intelligence.stats");
    reveal_strlit("auth.list_sessions");
    reveal_strlit("chain.lookup_cross_receipt");
    reveal_strlit("config.show");
    reveal_strlit("config.get");
    reveal_strlit("caesar.transfer");
    reveal_strlit("caesar.staking");
    reveal_strlit("caesar.rewards");
    assert("share.reject"@[0] != "gateway.list"@[0]);
    assert forall|i: int| 0 <= i < view_only_methods().len() implies view_only_methods()[i] != "share.reject"@ by {
        assert(view_only_methods()[i].len() != "share.reject"@.len() || view_only_methods()[i] != "share.reject"@);
    }
    assert forall|i: int| 0 <= i < wallet_methods().len() implies wallet_methods()[i] != "share.reject"@ by {
        assert(wallet_methods()[i].len() != "share.reject"@.len() || wallet_methods()[i] != "share.reject"@);
    }
}

proof fn lemma_unlisted_message_send()
    ensures
        !view_only_methods().contains("message.send"@),
        !wallet_methods().contains("message.send"@),
{
    reveal_strlit("message.send");
    reveal_strlit("ping");
    reveal_strlit("status");
    reveal_strlit("topology.info");
    reveal_strlit("topology.neighbors");
    reveal_strlit("topology.routing_cost");
    reveal_strlit("topology.path");
    reveal_strlit("blockchain.height");
    reveal_strlit("blockchain.block");
    reveal_strlit("blockchain.validate");
    reveal_strlit("caesar.balance");
    reveal_strlit("caesar.transactions");
    reveal_strlit("caesar.overview");
    reveal_strlit("engauge.capacity");
    reveal_strlit("engauge.traffic");
    reveal_strlit("engauge.routing");
    reveal_strlit("engauge.throttle");
    reveal_strlit("trustchain.identity");
    reveal_strlit("trustchain.status");
    reveal_strlit("trustchain.certs");
    reveal_strlit("trustchain.federation");
    reveal_strlit("identity.pubkey");
    reveal_strlit("peer.pubkey");
    reveal_strlit("stoq.stats");
    reveal_strlit("stoq.connections");
    reveal_strlit("stoq.performance");
    reveal_strlit("dns.resolve");
    reveal_strlit("dns.list");
    reveal_strlit("asset.list");
    reveal_strlit("asset.info");
    reveal_strlit("dashboard.list");
    reveal_strlit("dashboard.info");
    reveal_strlit("share.inbox");
    reveal_strlit("message.inbox");
    reveal_strlit("message.history");
    reveal_strlit("network.peers");
    reveal_strlit("domain.list");
    reveal_strlit("gateway.status");
    reveal_strlit("gateway.list");
    reveal_strlit("system.check_update");
    reveal_strlit("intelligence.stats");
    reveal_strlit("auth.list_sessions");
    reveal_strlit("chain.lookup_cross_receipt");
    reveal_strlit("config.show");
    reveal_strlit("config.get");
    reveal_strlit("caesar.transfer");
    reveal_strlit("caesar.staking");
    reveal_strlit("caesar.rewards");
    assert("message.send"@[0] != "gateway.list"@[0]);
    assert forall|i: int| 0 <= i < view_only_methods().len() implies view_only_methods()[i] != "message.send"@ by {
        assert(view_only_methods()[i].len() != "message.send"@.len() || view_only_methods()[i] != "message.send"@);
    }
    assert forall|i: int| 0 <= i < wallet_methods().len() implies wallet_methods()[i] != "message.send"@ by {
        assert(wallet_methods()[i].len() != "message.send"@.len() || wallet_methods()[i] != "message.send"@);
    }
}

proof fn lemma_unlisted_message_read()
    ensures
        !view_only_methods().contains("message.read"@),
        !wallet_methods().contains("message.read"@),
{
    reveal_strlit("message.read");
    reveal_strlit("ping");
    reveal_strlit("status");
    reveal_strlit("topology.info");
    reveal_strlit("topology.neighbors");
    reveal_strlit("topology.routing_cost");
    reveal_strlit("topology.path");
    reveal_strlit("blockchain.height");
    reveal_strlit("blockchain.block");
    reveal_strlit("blockchain.validate");
    reveal_strlit("caesar.balance");
    reveal_strlit("caesar.transactions");
    reveal_strlit("caesar.overview");
    reveal_strlit("engauge.capacity");
    reveal_strlit("engauge.traffic");
    reveal_strlit("engauge.routing");
    reveal_strlit("engauge.throttle");
    reveal_strlit("trustchain.identity");
    reveal_strlit("trustchain.status");
    reveal_strlit("trustchain.certs");
    reveal_strlit("trustchain.federation");
    reveal_strlit("identity.pubkey");
    reveal_strlit("peer.pubkey");
    reveal_strlit("stoq.stats");
    reveal_strlit("stoq.connections");
    reveal_strlit("stoq.performance");
    reveal_strlit("dns.resolve");
    reveal_strlit("dns.list");
    reveal_strlit("asset.list");
    reveal_strlit("asset.info");
    reveal_strlit("dashboard.list");
    reveal_strlit("dashboard.info");
    reveal_strlit("share.inbox");
    reveal_strlit("message.inbox");
    reveal_strlit("message.history");
    reveal_strlit("network.peers");
    reveal_strlit("domain.list");
    reveal_strlit("gateway.status");
    reveal_strlit("gateway.list");
    reveal_strlit("system.check_update");
    reveal_strlit("intelligence.stats");
    reveal_strlit("auth.list_sessions");
    reveal_strlit("chain.lookup_cross_receipt");
    reveal_strlit("config.show");
    reveal_strlit("config.get");
    reveal_strlit("caesar.transfer");
    reveal_strlit("caesar.staking");
    reveal_strlit("caesar.rewards");
    assert("message.read"@[0] != "gateway.list"@[0]);
    assert forall|i: int| 0 <= i < view_only_methods().len() implies view_only_methods()[i] != "message.read"@ by {
        assert(view_only_methods()[i].len() != "message.read"@.len() || view_only_methods()[i] != "message.read"@);
    }
    assert forall|i: int| 0 <= i < wallet_methods().len() implies wallet_methods()[i] != "message.read"@ by {
        assert(wallet_methods()[i].len() != "message.read"@.len() || wallet_methods()[i] != "message.read"@);
    }
}

proof fn lemma_unlisted_dashboard_deploy()
    ensures
        !view_only_methods().contains("dashboard.deploy"@),
        !wallet_methods().contains("dashboard.deploy"@),
{
    reveal_strlit("dashboard.deploy");
    reveal_strlit("ping");
    reveal_strlit("status");
    reveal_strlit("topology.info");
    reveal_strlit("topology.neighbors");
    reveal_strlit("topology.routing_cost");
    reveal_strlit("topology.path");
    reveal_strlit("blockchain.height");
    reveal_strlit("blockchain.block");
    reveal_strlit("blockchain.validate");
    reveal_strlit("caesar.balance");
    reveal_strlit("caesar.transactions");
    reveal_strlit("caesar.overview");
    reveal_strlit("engauge.capacity");
    reveal_strlit("engauge.traffic");
    reveal_strlit("engauge.routing");
    reveal_strlit("engauge.throttle");
    reveal_strlit("trustchain.identity");
    reveal_strlit("trustchain.status");
    reveal_strlit("trustchain.certs");
    reveal_strlit("trustchain.federation");
    reveal_strlit("identity.pubkey");
    reveal_strlit("peer.pubkey");
    reveal_strlit("stoq.stats");
    reveal_strlit("stoq.connections");
    reveal_strlit("stoq.performance");
    reveal_strlit("dns.resolve");
    reveal_strlit("dns.list");
    reveal_strlit("asset.list");
    reveal_strlit("asset.info");
    reveal_strlit("dashboard.list");
    reveal_strlit("dashboard.info");
    reveal_strlit("share.inbox");
    reveal_strlit("message.inbox");
    reveal_strlit("message.history");
    reveal_strlit("network.peers");
    reveal_strlit("domain.list");
    reveal_strlit("gateway.status");
    reveal_strlit("gateway.list");
    reveal_strlit("system.check_update");
    reveal_strlit("intelligence.stats");
    reveal_strlit("auth.list_sessions");
    reveal_strlit("chain.lookup_cross_receipt");
    reveal_strlit("config.show");
    reveal_strlit("config.get");
    reveal_strlit("caesar.transfer");
    reveal_strlit("caesar.staking");
    reveal_strlit("caesar.rewards");
    assert("dashboard.deploy"@[0] != "blockchain.block"@[0]);
    assert("dashboard.deploy"@[0] != "engauge.capacity"@[0]);
    assert("dashboard.deploy"@[0] != "engauge.throttle"@[0]);
    assert("dashboard.deploy"@[0] != "trustchain.certs"@[0]);
    assert("dashboard.deploy"@[0] != "stoq.connections"@[0]);
    assert("dashboard.deploy"@[0] != "stoq.performance"@[0]);
    assert forall|i: int| 0 <= i < view_only_methods().len() implies view_only_methods()[i] != "dashboard.deploy"@ by {
        assert(view_only_methods()[i].len() != "dashboard.deploy"@.len() || view_only_methods()[i] != "dashboard.deploy"@);
    }
    assert forall|i: int| 0 <= i < wallet_methods().len() implies wallet_methods()[i] != "dashboard.deploy"@ by {
        assert(wallet_methods()[i].len() != "dashboard.deploy"@.len() || wallet_methods()[i] != "dashboard.deploy"@);
    }
}

proof fn lemma_unlisted_dns_register()
    ensures
        !view_only_methods().contains("dns.register"@),
        !wallet_methods().contains("dns.register"@),
{
    reveal_strlit("dns.register");
    reveal_strlit("ping");
    reveal_strlit("status");
    reveal_strlit("topology.info");
    reveal_strlit("topology.neighbors");
    reveal_strlit("topology.routing_cost");
    reveal_strlit("topology.path");
    reveal_strlit("blockchain.height");
    reveal_strlit("blockchain.block");
    reveal_strlit("blockchain.validate");
    reveal_strlit("caesar.balance");
    reveal_strlit("caesar.transactions");
    reveal_strlit("caesar.overview");
    reveal_strlit("engauge.capacity");
    reveal_strlit("engauge.traffic");
    reveal_strlit("engauge.routing");
    reveal_strlit("engauge.throttle");
    reveal_strlit("trustchain.identity");
    reveal_strlit("trustchain.status");
    reveal_strlit("trustchain.certs");
    reveal_strlit("trustchain.federation");
    reveal_strlit("identity.pubkey");
    reveal_strlit("peer.pubkey");
    reveal_strlit("stoq.stats");
    reveal_strlit("stoq.connections");
    reveal_strlit("stoq.performance");
    reveal_strlit("dns.resolve");
    reveal_strlit("dns.list");
    reveal_strlit("asset.list");
    reveal_strlit("asset.info");
    reveal_strlit("dashboard.list");
    reveal_strlit("dashboard.info");
    reveal_strlit("share.inbox");
    reveal_strlit("message.inbox");
    reveal_strlit("message.history");
    reveal_strlit("network.peers");
    reveal_strlit("domain.list");
    reveal_strlit("gateway.status");
    reveal_strlit("gateway.list");
    reveal_strlit("system.check_update");
    reveal_strlit("intelligence.stats");
    reveal_strlit("auth.list_sessions");
    reveal_strlit("chain.lookup_cross_receipt");
    reveal_strlit("config.show");
    reveal_strlit("config.get");
    reveal_strlit("caesar.transfer");
    reveal_strlit("caesar.staking");
    reveal_strlit("caesar.rewards");
    assert("dns.register"@[0] != "gateway.list"@[0]);
    assert forall|i: int| 0 <= i < view_only_methods().len() implies view_only_methods()[i] != "dns.register"@ by {
        assert(view_only_methods()[i].len() != "dns.register"@.len() || view_only_methods()[i] != "dns.register"@);
    }
    assert forall|i: int| 0 <= i < wallet_methods().len() implies wallet_methods()[i] != "dns.register"@ by {
        assert(wallet_methods()[i].len() != "dns.register"@.len() || wallet_methods()[i] != "dns.register"@);
    }
}

proof fn lemma_unlisted_domain_register()
    ensures
        !view_only_methods().contains("domain.register"@),
        !wallet_methods().contains("domain.register"@),
{
    reveal_strlit("domain.register");
    reveal_strlit("ping");
    reveal_strlit("status");
    reveal_strlit("topology.info");
    reveal_strlit("topology.neighbors");
    reveal_strlit("topology.routing_cost");
    reveal_strlit("topology.path");
    reveal_strlit("blockchain.height");
    reveal_strlit("blockchain.block");
    reveal_strlit("blockchain.validate");
    reveal_strlit("caesar.balance");
    reveal_strlit("caesar.transactions");
    reveal_strlit("caesar.overview");
    reveal_strlit("engauge.capacity");
    reveal_strlit("engauge.traffic");
    reveal_strlit("engauge.routing");
    reveal_strlit("engauge.throttle");
    reveal_strlit("trustchain.identity");
    reveal_strlit("trustchain.status");
    reveal_strlit("trustchain.certs");
    reveal_strlit("trustchain.federation");
    reveal_strlit("identity.pubkey");
    reveal_strlit("peer.pubkey");
    reveal_strlit("stoq.stats");
    reveal_strlit("stoq.connections");
    reveal_strlit("stoq.performance");
    reveal_strlit("dns.resolve");
    reveal_strlit("dns.list");
    reveal_strlit("asset.list");
    reveal_strlit("asset.info");
    reveal_strlit("dashboard.list");
    reveal_strlit("dashboard.info");
    reveal_strlit("share.inbox");
    reveal_strlit("message.inbox");
    reveal_strlit("message.history");
    reveal_strlit("network.peers");
    reveal_strlit("domain.list");
    reveal_strlit("gateway.status");
    reveal_strlit("gateway.list");
    reveal_strlit("system.check_update");
    reveal_strlit("intelligence.stats");
    reveal_strlit("auth.list_sessions");
    reveal_strlit("chain.lookup_cross_receipt");
    reveal_strlit("config.show");
    reveal_strlit("config.get");
    reveal_strlit("caesar.transfer");
    reveal_strlit("caesar.staking");
    reveal_strlit("caesar.rewards");
    assert("domain.register"@[0] != "caesar.overview"@[0]);
    assert("domain.register"@[0] != "engauge.traffic"@[0]);
    assert("domain.register"@[0] != "engauge.routing"@[0]);
    assert("domain.register"@[0] != "identity.pubkey"@[0]);
    assert("domain.register"@[0] != "message.history"@[0]);
    assert("domain.register"@[0] != "caesar.transfer"@[0]);
    assert forall|i: int| 0 <= i < view_only_methods().len() implies view_only_methods()[i] != "domain.register"@ by {
        assert(view_only_methods()[i].len() != "domain.register"@.len() || view_only_methods()[i] != "domain.register"@);
    }
    assert forall|i: int| 0 <= i < wallet_methods().len() implies wallet_methods()[i] != "domain.register"@ by {
        assert(wallet_methods()[i].len() != "domain.register"@.len() || wallet_methods()[i] != "domain.register"@);
    }
}

proof fn lemma_unlisted_domain_join()
    ensures
        !view_only_methods().contains("domain.join"@),
        !wallet_methods().contains("domain.join"@),
{
    reveal_strlit("domain.join");
    reveal_strlit("ping");
    reveal_strlit("status");
    reveal_strlit("topology.info");
    reveal_strlit("topology.neighbors");
    reveal_strlit("topology.routing_cost");
    reveal_strlit("topology.path");
    reveal_strlit("blockchain.height");
    reveal_strlit("blockchain.block");
    reveal_strlit("blockchain.validate");
    reveal_strlit("caesar.balance");
    reveal_strlit("caesar.transactions");
    reveal_strlit("caesar.overview");
    reveal_strlit("engauge.capacity");
    reveal_strlit("engauge.traffic");
    reveal_strlit("engauge.routing");
    reveal_strlit("engauge.throttle");
    reveal_strlit("trustchain.identity");
    reveal_strlit("trustchain.status");
    reveal_strlit("trustchain.certs");
    reveal_strlit("trustchain.federation");
    reveal_strlit("identity.pubkey");
    reveal_strlit("peer.pubkey");
    reveal_strlit("stoq.stats");
    reveal_strlit("stoq.connections");
    reveal_strlit("stoq.performance");
    reveal_strlit("dns.resolve");
    reveal_strlit("dns.list");
    reveal_strlit("asset.list");
    reveal_strlit("asset.info");
    reveal_strlit("dashboard.list");
    reveal_strlit("dashboard.info");
    reveal_strlit("share.inbox");
    reveal_strlit("message.inbox");
    reveal_strlit("message.history");
    reveal_strlit("network.peers");
    reveal_strlit("domain.list");
    reveal_strlit("gateway.status");
    reveal_strlit("gateway.list");
    reveal_strlit("system.check_update");
    reveal_strlit("intelligence.stats");
    reveal_strlit("auth.list_sessions");
    reveal_strlit("chain.lookup_cross_receipt");
    reveal_strlit("config.show");
    reveal_strlit("config.get");
    reveal_strlit("caesar.transfer");
    reveal_strlit("caesar.staking");
    reveal_strlit("caesar.rewards");
    assert("domain.join"@[0] != "peer.pubkey"@[0]);
    assert("domain.join"@[1] != "dns.resolve"@[1]);
    assert("domain.join"@[0] != "share.inbox"@[0]);
    assert("domain.join"@[7] != "domain.list"@[7]);
    assert("domain.join"@[0] != "config.show"@[0]);
    assert forall|i: int| 0 <= i < view_only_methods().len() implies view_only_methods()[i] != "domain.join"@ by {
        assert(view_only_methods()[i].len() != "domain.join"@.len() || view_only_methods()[i] != "domain.join"@);
    }
    assert forall|i: int| 0 <= i < wallet_methods().len() implies wallet_methods()[i] != "domain.join"@ by {
        assert(wallet_methods()[i].len() != "domain.join"@.len() || wallet_methods()[i] != "domain.join"@);
    }
}

proof fn lemma_unlisted_domain_create()
    ensures
        !view_only_methods().contains("domain.create"@),
        !wallet_methods().contains("domain.create"@),
{
    reveal_strlit("domain.create");
    reveal_strlit("ping");
    reveal_strlit("status");
    reveal_strlit("topology.info");
    reveal_strlit("topology.neighbors");
    reveal_strlit("topology.routing_cost");
    reveal_strlit("topology.path");
    reveal_strlit("blockchain.height");
    reveal_strlit("blockchain.block");
    reveal_strlit("blockchain.validate");
    reveal_strlit("caesar.balance");
    reveal_strlit("caesar.transactions");
    reveal_strlit("caesar.overview");
    reveal_strlit("engauge.capacity");
    reveal_strlit("engauge.traffic");
    reveal_strlit("engauge.routing");
    reveal_strlit("engauge.throttle");
    reveal_strlit("trustchain.identity");
    reveal_strlit("trustchain.status");
    reveal_strlit("trustchain.certs");
    reveal_strlit("trustchain.federation");
    reveal_strlit("identity.pubkey");
    reveal_strlit("peer.pubkey");
    reveal_strlit("stoq.stats");
    reveal_strlit("stoq.connections");
    reveal_strlit("stoq.performance");
    reveal_strlit("dns.resolve");
    reveal_strlit("dns.list");
    reveal_strlit("asset.list");
    reveal_strlit("asset.info");
    reveal_strlit("dashboard.list");
    reveal_strlit("dashboard.info");
    reveal_strlit("share.inbox");
    reveal_strlit("message.inbox");
    reveal_strlit("message.history");
    reveal_strlit("network.peers");
    reveal_strlit("domain.list");
    reveal_strlit("gateway.status");
    reveal_strlit("gateway.list");
    reveal_strlit("system.check_update");
    reveal_strlit("intelligence.stats");
    reveal_strlit("auth.list_sessions");
    reveal_strlit("chain.lookup_cross_receipt");
    reveal_strlit("config.show");
    reveal_strlit("config.get");
    reveal_strlit("caesar.transfer");
    reveal_strlit("caesar.staking");
    reveal_strlit("caesar.rewards");
    assert("domain.create"@[0] != "topology.info"@[0]);
    assert("domain.create"@[0] != "topology.path"@[0]);
    assert("domain.create"@[0] != "message.inbox"@[0]);
    assert("domain.create"@[0] != "network.peers"@[0]);
    assert forall|i: int| 0 <= i < view_only_methods().len() implies view_only_methods()[i] != "domain.create"@ by {
        assert(view_only_methods()[i].len() != "domain.create"@.len() || view_only_methods()[i] != "domain.create"@);
    }
    assert forall|i: int| 0 <= i < wallet_methods().len() implies wallet_methods()[i] != "domain.create"@ by {
        assert(wallet_methods()[i].len() != "domain.create"@.len() || wallet_methods()[i] != "domain.create"@);
    }
}

proof fn lemma_unlisted_gateway_transfer()
    ensures
        !view_only_methods().contains("gateway.transfer"@),
        !wallet_methods().contains("gateway.transfer"@),
{
    reveal_strlit("gateway.transfer");
    reveal_strlit("ping");
    reveal_strlit("status");
    reveal_strlit("topology.info");
    reveal_strlit("topology.neighbors");
    reveal_strlit("topology.routing_cost");
    reveal_strlit("topology.path");
    reveal_strlit("blockchain.height");
    reveal_strlit("blockchain.block");
    reveal_strlit("blockchain.validate");
    reveal_strlit("caesar.balance");
    reveal_strlit("caesar.transactions");
    reveal_strlit("caesar.overview");
    reveal_strlit("engauge.capacity");
    reveal_strlit("engauge.traffic");
    reveal_strlit("engauge.routing");
    reveal_strlit("engauge.throttle");
    reveal_strlit("trustchain.identity");
    reveal_strlit("trustchain.status");
    reveal_strlit("trustchain.certs");
    reveal_strlit("trustchain.federation");
    reveal_strlit("identity.pubkey");
    reveal_strlit("peer.pubkey");
    reveal_strlit("stoq.stats");
    reveal_strlit("stoq.connections");
    reveal_strlit("stoq.performance");
    reveal_strlit("dns.resolve");
    reveal_strlit("dns.list");
    reveal_strlit("asset.list");
    reveal_strlit("asset.info");
    reveal_strlit("dashboard.list");
    reveal_strlit("dashboard.info");
    reveal_strlit("share.inbox");
    reveal_strlit("message.inbox");
    reveal_strlit("message.history");
    reveal_strlit("network.peers");
    reveal_strlit("domain.list");
    reveal_strlit("gateway.status");
    reveal_strlit("gateway.list");
    reveal_strlit("system.check_update");
    reveal_strlit("intelligence.stats");
    reveal_strlit("auth.list_sessions");
    reveal_strlit("chain.lookup_cross_receipt");
    reveal_strlit("config.show");
    reveal_strlit("config.get");
    reveal_strlit("caesar.transfer");
    reveal_strlit("caesar.staking");
    reveal_strlit("caesar.rewards");
    assert("gateway.transfer"@[0] != "blockchain.block"@[0]);
    assert("gateway.transfer"@[0] != "engauge.capacity"@[0]);
    assert("gateway.transfer"@[0] != "engauge.throttle"@[0]);
    assert("gateway.transfer"@[0] != "trustchain.certs"@[0]);
    assert("gateway.transfer"@[0] != "stoq.connections"@[0]);
    assert("gateway.transfer"@[0] != "stoq.performance"@[0]);
    assert forall|i: int| 0 <= i < view_only_methods().len() implies view_only_methods()[i] != "gateway.transfer"@ by {
        assert(view_only_methods()[i].len() != "gateway.transfer"@.len() || view_only_methods()[i] != "gateway.transfer"@);
    }
    assert forall|i: int| 0 <= i < wallet_methods().len() implies wallet_methods()[i] != "gateway.transfer"@ by {
        assert(wallet_methods()[i].len() != "gateway.transfer"@.len() || wallet_methods()[i] != "gateway.transfer"@);
    }
}

proof fn lemma_unlisted_shutdown()
    ensures
        !view_only_methods().contains("shutdown"@),
        !wallet_methods().contains("shutdown"@),
        !asset_write_methods().contains("shutdown"@),
{
    reveal_strlit("shutdown");
    reveal_strlit("ping");
    reveal_strlit("status");
    reveal_strlit("topology.info");
    reveal_strlit("topology.neighbors");
    reveal_strlit("topology.routing_cost");
    reveal_strlit("topology.path");
    reveal_strlit("blockchain.height");
    reveal_strlit("blockchain.block");
    reveal_strlit("blockchain.validate");
    reveal_strlit("caesar.balance");
    reveal_strlit("caesar.transactions");
    reveal_strlit("caesar.overview");
    reveal_strlit("engauge.capacity");
    reveal_strlit("engauge.traffic");
    reveal_strlit("engauge.routing");
    reveal_strlit("engauge.throttle");
    reveal_strlit("trustchain.identity");
    reveal_strlit("trustchain.status");
    reveal_strlit("trustchain.certs");
    reveal_strlit("trustchain.federation");
    reveal_strlit("identity.pubkey");
    reveal_strlit("peer.pubkey");
    reveal_strlit("stoq.stats");
    reveal_strlit("stoq.connections");
    reveal_strlit("stoq.performance");
    reveal_strlit("dns.resolve");
    reveal_strlit("dns.list");
    reveal_strlit("asset.list");
    reveal_strlit("asset.info");
    reveal_strlit("dashboard.list");
    reveal_strlit("dashboard.info");
    reveal_strlit("share.inbox");
    reveal_strlit("message.inbox");
    reveal_strlit("message.history");
    reveal_strlit("network.peers");
    reveal_strlit("domain.list");
    reveal_strlit("gateway.status");
    reveal_strlit("gateway.list");
    reveal_strlit("system.check_update");
    reveal_strlit("intelligence.stats");
    reveal_strlit("auth.list_sessions");
    reveal_strlit("chain.lookup_cross_receipt");
    reveal_strlit("config.show");
    reveal_strlit("config.get");
    reveal_strlit("caesar.transfer");
    reveal_strlit("caesar.staking");
    reveal_strlit("caesar.rewards");
    reveal_strlit("asset.register");
    reveal_strlit("store");
    reveal_strlit("fetch");
    reveal_strlit("share.send");
    reveal_strlit("share.accept");
    reveal_strlit("share.reject");
    reveal_strlit("message.send");
    reveal_strlit("message.read");
    reveal_strlit("dashboard.deploy");
    reveal_strlit("dns.register");
    reveal_strlit("domain.register");
    reveal_strlit("domain.join");
    reveal_strlit("domain.create");
    reveal_strlit("gateway.transfer");
    assert("shutdown"@[0] != "dns.list"@[0]);
    assert forall|i: int| 0 <= i < view_only_methods().len() implies view_only_methods()[i] != "shutdown"@ by {
        assert(view_only_methods()[i].len() != "shutdown"@.len() || view_only_methods()[i] != "shutdown"@);
    }
    assert forall|i: int| 0 <= i < wallet_methods().len() implies wallet_methods()[i] != "shutdown"@ by {
        assert(wallet_methods()[i].len() != "shutdown"@.len() || wallet_methods()[i] != "shutdown"@);
    }
    assert forall|i: int| 0 <= i < asset_write_methods().len() implies asset_write_methods()[i] != "shutdown"@ by {
        assert(asset_write_methods()[i].len() != "shutdown"@.len() || asset_write_methods()[i] != "shutdown"@);
    }
}

proof fn lemma_unlisted_config_set()
    ensures
        !view_only_methods().contains("config.set"@),
        !wallet_methods().contains("config.set"@),
        !asset_write_methods().contains("config.set"@),
{
    reveal_strlit("config.set");
    reveal_strlit("ping");
    reveal_strlit("status");
    reveal_strlit("topology.info");
    reveal_strlit("topology.neighbors");
    reveal_strlit("topology.routing_cost");
    reveal_strlit("topology.path");
    reveal_strlit("blockchain.height");
    reveal_strlit("blockchain.block");
    reveal_strlit("blockchain.validate");
    reveal_strlit("caesar.balance");
    reveal_strlit("caesar.transactions");
    reveal_strlit("caesar.overview");
    reveal_strlit("engauge.capacity");
    reveal_strlit("engauge.traffic");
    reveal_strlit("engauge.routing");
    reveal_strlit("engauge.throttle");
    reveal_strlit("trustchain.identity");
    reveal_strlit("trustchain.status");
    reveal_strlit("trustchain.certs");
    reveal_strlit("trustchain.federation");
    reveal_strlit("identity.pubkey");
    reveal_strlit("peer.pubkey");
    reveal_strlit("stoq.stats");
    reveal_strlit("stoq.connections");
    reveal_strlit("stoq.performance");
    reveal_strlit("dns.resolve");
    reveal_strlit("dns.list");
    reveal_strlit("asset.list");
    reveal_strlit("asset.info");
    reveal_strlit("dashboard.list");
    reveal_strlit("dashboard.info");
    reveal_strlit("share.inbox");
    reveal_strlit("message.inbox");
    reveal_strlit("message.history");
    reveal_strlit("network.peers");
    reveal_strlit("domain.list");
    reveal_strlit("gateway.status");
    reveal_strlit("gateway.list");
    reveal_strlit("system.check_update");
    reveal_strlit("intelligence.stats");
    reveal_strlit("auth.list_sessions");
    reveal_strlit("chain.lookup_cross_receipt");
    reveal_strlit("config.show");
    reveal_strlit("config.get");
    reveal_strlit("caesar.transfer");
    reveal_strlit("caesar.staking");
    reveal_strlit("caesar.rewards");
    reveal_strlit("asset.register");
    reveal_strlit("store");
    reveal_strlit("fetch");
    reveal_strlit("share.send");
    reveal_strlit("share.accept");
    reveal_strlit("share.reject");
    reveal_strlit("message.send");
    reveal_strlit("message.read");
    reveal_strlit("dashboard.deploy");
    reveal_strlit("dns.register");
    reveal_strlit("domain.register");
    reveal_strlit("domain.join");
    reveal_strlit("domain.create");
    reveal_strlit("gateway.transfer");
    assert("config.set"@[0] != "stoq.stats"@[0]);
    assert("config.set"@[0] != "asset.list"@[0]);
    assert("config.set"@[0] != "asset.info"@[0]);
    assert("config.set"@[7] != "config.get"@[7]);
    assert("config.set"@[0] != "share.send"@[0]);
    assert forall|i: int| 0 <= i < view_only_methods().len() implies view_only_methods()[i] != "config.set"@ by {
        assert(view_only_methods()[i].len() != "config.set"@.len() || view_only_methods()[i] != "config.set"@);
    }
    assert forall|i: int| 0 <= i < wallet_methods().len() implies wallet_methods()[i] != "config.set"@ by {
        assert(wallet_methods()[i].len() != "config.set"@.len() || wallet_methods()[i] != "config.set"@);
    }
    assert forall|i: int| 0 <= i < asset_write_methods().len() implies asset_write_methods()[i] != "config.set"@ by {
        assert(asset_write_methods()[i].len() != "config.set"@.len() || asset_write_methods()[i] != "config.set"@);
    }
}

proof fn lemma_unlisted_dns_foundation_grant()
    ensures
        !view_only_methods().contains("dns.foundation_grant"@),
        !wallet_methods().contains("dns.foundation_grant"@),
        !asset_write_methods().contains("dns.foundation_grant"@),
{
    reveal_strlit("dns.foundation_grant");
    reveal_strlit("ping");
    reveal_strlit("status");
    reveal_strlit("topology.info");
    reveal_strlit("topology.neighbors");
    reveal_strlit("topology.routing_cost");
    reveal_strlit("topology.path");
    reveal_strlit("blockchain.height");
    reveal_strlit("blockchain.block");
    reveal_strlit("blockchain.validate");
    reveal_strlit("caesar.balance");
    reveal_strlit("caesar.transactions");
    reveal_strlit("caesar.overview");
    reveal_strlit("engauge.capacity");
    reveal_strlit("engauge.traffic");
    reveal_strlit("engauge.routing");
    reveal_strlit("engauge.throttle");
    reveal_strlit("trustchain.identity");
    reveal_strlit("trustchain.status");
    reveal_strlit("trustchain.certs");
    reveal_strlit("trustchain.federation");
    reveal_strlit("identity.pubkey");
    reveal_strlit("peer.pubkey");
    reveal_strlit("stoq.stats");
    reveal_strlit("stoq.connections");
    reveal_strlit("stoq.performance");
    reveal_strlit("dns.resolve");
    reveal_strlit("dns.list");
    reveal_strlit("asset.list");
    reveal_strlit("asset.info");
    reveal_strlit("dashboard.list");
    reveal_strlit("dashboard.info");
    reveal_strlit("share.inbox");
    reveal_strlit("message.inbox");
    reveal_strlit("message.history");
    reveal_strlit("network.peers");
    reveal_strlit("domain.list");
    reveal_strlit("gateway.status");
    reveal_strlit("gateway.list");
    reveal_strlit("system.check_update");
    reveal_strlit("intelligence.stats");
    reveal_strlit("auth.list_sessions");
    reveal_strlit("chain.lookup_cross_receipt");
    reveal_strlit("config.show");
    reveal_strlit("config.get");
    reveal_strlit("caesar.transfer");
    reveal_strlit("caesar.staking");
    reveal_strlit("caesar.rewards");
    reveal_strlit("asset.register");
    reveal_strlit("store");
    reveal_strlit("fetch");
    reveal_strlit("share.send");
    reveal_strlit("share.accept");
    reveal_strlit("share.reject");
    reveal_strlit("message.send");
    reveal_strlit("message.read");
    reveal_strlit("dashboard.deploy");
    reveal_strlit("dns.register");
    reveal_strlit("domain.register");
    reveal_strlit("domain.join");
    reveal_strlit("domain.create");
    reveal_strlit("gateway.transfer");
    assert forall|i: int| 0 <= i < view_only_methods().len() implies view_only_methods()[i] != "dns.foundation_grant"@ by {
        assert(view_only_methods()[i].len() != "dns.foundation_grant"@.len() || view_only_methods()[i] != "dns.foundation_grant"@);
    }
    assert forall|i: int| 0 <= i < wallet_methods().len() implies wallet_methods()[i] != "dns.foundation_grant"@ by {
        assert(wallet_methods()[i].len() != "dns.foundation_grant"@.len() || wallet_methods()[i] != "dns.foundation_grant"@);
    }
    assert forall|i: int| 0 <= i < asset_write_methods().len() implies asset_write_methods()[i] != "dns.foundation_grant"@ by {
        assert(asset_write_methods()[i].len() != "dns.foundation_grant"@.len() || asset_write_methods()[i] != "dns.foundation_grant"@);
    }
}

proof fn lemma_unlisted_auth_create_session()
    ensures
        !view_only_methods().contains("auth.create_session"@),
        !wallet_methods().contains("auth.create_session"@),
        !asset_write_methods().contains("auth.create_session"@),
{
    reveal_strlit("auth.create_session");
    reveal_strlit("ping");
    reveal_strlit("status");
    reveal_strlit("topology.info");
    reveal_strlit("topology.neighbors");
    reveal_strlit("topology.routing_cost");
    reveal_strlit("topology.path");
    reveal_strlit("blockchain.height");
    reveal_strlit("blockchain.block");
    reveal_strlit("blockchain.validate");
    reveal_strlit("caesar.balance");
    reveal_strlit("caesar.transactions");
    reveal_strlit("caesar.overview");
    reveal_strlit("engauge.capacity");
    reveal_strlit("engauge.traffic");
    reveal_strlit("engauge.routing");
    reveal_strlit("engauge.throttle");
    reveal_strlit("trustchain.identity");
    reveal_strlit("trustchain.status");
    reveal_strlit("trustchain.certs");
    reveal_strlit("trustchain.federation");
    reveal_strlit("identity.pubkey");
    reveal_strlit("peer.pubkey");
    reveal_strlit("stoq.stats");
    reveal_strlit("stoq.connections");
    reveal_strlit("stoq.performance");
    reveal_strlit("dns.resolve");
    reveal_strlit("dns.list");
    reveal_strlit("asset.list");
    reveal_strlit("asset.info");
    reveal_strlit("dashboard.list");
    reveal_strlit("dashboard.info");
    reveal_strlit("share.inbox");
    reveal_strlit("message.inbox");
    reveal_strlit("message.history");
    reveal_strlit("network.peers");
    reveal_strlit("domain.list");
    reveal_strlit("gateway.status");
    reveal_strlit("gateway.list");
    reveal_strlit("system.check_update");
    reveal_strlit("intelligence.stats");
    reveal_strlit("auth.list_sessions");
    reveal_strlit("chain.lookup_cross_receipt");
    reveal_strlit("config.show");
    reveal_strlit("config.get");
    reveal_strlit("caesar.transfer");
    reveal_strlit("caesar.staking");
    reveal_strlit("caesar.rewards");
    reveal_strlit("asset.register");
    reveal_strlit("store");
    reveal_strlit("fetch");
    reveal_strlit("share.send");
    reveal_strlit("share.accept");
    reveal_strlit("share.reject");
    reveal_strlit("message.send");
    reveal_strlit("message.read");
    reveal_strlit("dashboard.deploy");
    reveal_strlit("dns.register");
    reveal_strlit("domain.register");
    reveal_strlit("domain.join");
    reveal_strlit("domain.create");
    reveal_strlit("gateway.transfer");
    assert("auth.create_session"@[0] != "blockchain.validate"@[0]);
    assert("auth.create_session"@[0] != "caesar.transactions"@[0]);
    assert("auth.create_session"@[0] != "trustchain.identity"@[0]);
    assert("auth.create_session"@[0] != "system.check_update"@[0]);
    assert forall|i: int| 0 <= i < view_only_methods().len() implies view_only_methods()[i] != "auth.create_session"@ by {
        assert(view_only_methods()[i].len() != "auth.create_session"@.len() || view_only_methods()[i] != "auth.create_session"@);
    }
    assert forall|i: int| 0 <= i < wallet_methods().len() implies wallet_methods()[i] != "auth.create_session"@ by {
        assert(wallet_methods()[i].len() != "auth.create_session"@.len() || wallet_methods()[i] != "auth.create_session"@);
    }
    assert forall|i: int| 0 <= i < asset_write_methods().len() implies asset_write_methods()[i] != "auth.create_session"@ by {
        assert(asset_write_methods()[i].len() != "auth.create_session"@.len() || asset_write_methods()[i] != "auth.create_session"@);
    }
}

proof fn lemma_unlisted_auth_revoke_session()
    ensures
        !view_only_methods().contains("auth.revoke_session"@),
        !wallet_methods().contains("auth.revoke_session"@),
        !asset_write_methods().contains("auth.revoke_session"@),
{
    reveal_strlit("auth.revoke_session");
    reveal_strlit("ping");
    reveal_strlit("status");
    reveal_strlit("topology.info");
    reveal_strlit("topology.neighbors");
    reveal_strlit("topology.routing_cost");
    reveal_strlit("topology.path");
    reveal_strlit("blockchain.height");
    reveal_strlit("blockchain.block");
    reveal_strlit("blockchain.validate");
    reveal_strlit("caesar.balance");
    reveal_strlit("caesar.transactions");
    reveal_strlit("caesar.overview");
    reveal_strlit("engauge.capacity");
    reveal_strlit("engauge.traffic");
    reveal_strlit("engauge.routing");
    reveal_strlit("engauge.throttle");
    reveal_strlit("trustchain.identity");
    reveal_strlit("trustchain.status");
    reveal_strlit("trustchain.certs");
    reveal_strlit("trustchain.federation");
    reveal_strlit("identity.pubkey");
    reveal_strlit("peer.pubkey");
    reveal_strlit("stoq.stats");
    reveal_strlit("stoq.connections");
    reveal_strlit("stoq.performance");
    reveal_strlit("dns.resolve");
    reveal_strlit("dns.list");
    reveal_strlit("asset.list");
    reveal_strlit("asset.info");
    reveal_strlit("dashboard.list");
    reveal_strlit("dashboard.info");
    reveal_strlit("share.inbox");
    reveal_strlit("message.inbox");
    reveal_strlit("message.history");
    reveal_strlit("network.peers");
    reveal_strlit("domain.list");
    reveal_strlit("gateway.status");
    reveal_strlit("gateway.list");
    reveal_strlit("system.check_update");
    reveal_strlit("intelligence.stats");
    reveal_strlit("auth.list_sessions");
    reveal_strlit("chain.lookup_cross_receipt");
    reveal_strlit("config.show");
    reveal_strlit("config.get");
    reveal_strlit("caesar.transfer");
    reveal_strlit("caesar.staking");
    reveal_strlit("caesar.rewards");
    reveal_strlit("asset.register");
    reveal_strlit("store");
    reveal_strlit("fetch");
    reveal_strlit("share.send");
    reveal_strlit("share.accept");
    reveal_strlit("share.reject");
    reveal_strlit("message.send");
    reveal_strlit("message.read");
    reveal_strlit("dashboard.deploy");
    reveal_strlit("dns.register");
    reveal_strlit("domain.register");
    reveal_strlit("domain.join");
    reveal_strlit("domain.create");
    reveal_strlit("gateway.transfer");
    assert("auth.revoke_session"@[0] != "blockchain.validate"@[0]);
    assert("auth.revoke_session"@[0] != "caesar.transactions"@[0]);
    assert("auth.revoke_session"@[0] != "trustchain.identity"@[0]);
    assert("auth.revoke_session"@[0] != "system.check_update"@[0]);
    assert forall|i: int| 0 <= i < view_only_methods().len() implies view_only_methods()[i] != "auth.revoke_session"@ by {
        assert(view_only_methods()[i].len() != "auth.revoke_session"@.len() || view_only_methods()[i] != "auth.revoke_session"@);
    }
    assert forall|i: int| 0 <= i < wallet_methods().len() implies wallet_methods()[i] != "auth.revoke_session"@ by {
        assert(wallet_methods()[i].len() != "auth.revoke_session"@.len() || wallet_methods()[i] != "auth.revoke_session"@);
    }
    assert forall|i: int| 0 <= i < asset_write_methods().len() implies asset_write_methods()[i] != "auth.revoke_session"@ by {
        assert(asset_write_methods()[i].len() != "auth.revoke_session"@.len() || asset_write_methods()[i] != "auth.revoke_session"@);
    }
}

proof fn lemma_unlisted_system_apply_update()
    ensures
        !view_only_methods().contains("system.apply_update"@),
        !wallet_methods().contains("system.apply_update"@),
        !asset_write_methods().contains("system.apply_update"@),
{
    reveal_strlit("system.apply_update");
    reveal_strlit("ping");
    reveal_strlit("status");
    reveal_strlit("topology.info");
    reveal_strlit("topology.neighbors");
    reveal_strlit("topology.routing_cost");
    reveal_strlit("topology.path");
    reveal_strlit("blockchain.height");
    reveal_strlit("blockchain.block");
    reveal_strlit("blockchain.validate");
    reveal_strlit("caesar.balance");
    reveal_strlit("caesar.transactions");
    reveal_strlit("caesar.overview");
    reveal_strlit("engauge.capacity");
    reveal_strlit("engauge.traffic");
    reveal_strlit("engauge.routing");
    reveal_strlit("engauge.throttle");
    reveal_strlit("trustchain.identity");
    reveal_strlit("trustchain.status");
    reveal_strlit("trustchain.certs");
    reveal_strlit("trustchain.federation");
    reveal_strlit("identity.pubkey");
    reveal_strlit("peer.pubkey");
    reveal_strlit("stoq.stats");
    reveal_strlit("stoq.connections");
    reveal_strlit("stoq.performance");
    reveal_strlit("dns.resolve");
    reveal_strlit("dns.list");
    reveal_strlit("asset.list");
    reveal_strlit("asset.info");
    reveal_strlit("dashboard.list");
    reveal_strlit("dashboard.info");
    reveal_strlit("share.inbox");
    reveal_strlit("message.inbox");
    reveal_strlit("message.history");
    reveal_strlit("network.peers");
    reveal_strlit("domain.list");
    reveal_strlit("gateway.status");
    reveal_strlit("gateway.list");
    reveal_strlit("system.check_update");
    reveal_strlit("intelligence.stats");
    reveal_strlit("auth.list_sessions");
    reveal_strlit("chain.lookup_cross_receipt");
    reveal_strlit("config.show");
    reveal_strlit("config.get");
    reveal_strlit("caesar.transfer");
    reveal_strlit("caesar.staking");
    reveal_strlit("caesar.rewards");
    reveal_strlit("asset.register");
    reveal_strlit("store");
    reveal_strlit("fetch");
    reveal_strlit("share.send");
    reveal_strlit("share.accept");
    reveal_strlit("share.reject");
    reveal_strlit("message.send");
    reveal_strlit("message.read");
    reveal_strlit("dashboard.deploy");
    reveal_strlit("dns.register");
    reveal_strlit("domain.register");
    reveal_strlit("domain.join");
    reveal_strlit("domain.create");
    reveal_strlit("gateway.transfer");
    assert("system.apply_update"@[0] != "blockchain.validate"@[0]);
    assert("system.apply_update"@[0] != "caesar.transactions"@[0]);
    assert("system.apply_update"@[0] != "trustchain.identity"@[0]);
    assert("system.apply_update"@[7] != "system.check_update"@[7]);
    assert forall|i: int| 0 <= i < view_only_methods().len() implies view_only_methods()[i] != "system.apply_update"@ by {
        assert(view_only_methods()[i].len() != "system.apply_update"@.len() || view_only_methods()[i] != "system.apply_update"@);
    }
    assert forall|i: int| 0 <= i < wallet_methods().len() implies wallet_methods()[i] != "system.apply_update"@ by {
        assert(wallet_methods()[i].len() != "system.apply_update"@.len() || wallet_methods()[i] != "system.apply_update"@);
    }
    assert forall|i: int| 0 <= i < asset_write_methods().len() implies asset_write_methods()[i] != "system.apply_update"@ by {
        assert(asset_write_methods()[i].len() != "system.apply_update"@.len() || asset_write_methods()[i] != "system.apply_update"@);
    }
}

proof fn lemma_unlisted_trustchain_request_cert()
    ensures
        !view_only_methods().contains("trustchain.request_cert"@),
        !wallet_methods().contains("trustchain.request_cert"@),
        !asset_write_methods().contains("trustchain.request_cert"@),
{
    reveal_strlit("trustchain.request_cert");
    reveal_strlit("ping");
    reveal_strlit("status");
    reveal_strlit("topology.info");
    reveal_strlit("topology.neighbors");
    reveal_strlit("topology.routing_cost");
    reveal_strlit("topology.path");
    reveal_strlit("blockchain.height");
    reveal_strlit("blockchain.block");
    reveal_strlit("blockchain.validate");
    reveal_strlit("caesar.balance");
    reveal_strlit("caesar.transactions");
    reveal_strlit("caesar.overview");
    reveal_strlit("engauge.capacity");
    reveal_strlit("engauge.traffic");
    reveal_strlit("engauge.routing");
    reveal_strlit("engauge.throttle");
    reveal_strlit("trustchain.identity");
    reveal_strlit("trustchain.status");
    reveal_strlit("trustchain.certs");
    reveal_strlit("trustchain.federation");
    reveal_strlit("identity.pubkey");
    reveal_strlit("peer.pubkey");
    reveal_strlit("stoq.stats");
    reveal_strlit("stoq.connections");
    reveal_strlit("stoq.performance");
    reveal_strlit("dns.resolve");
    reveal_strlit("dns.list");
    reveal_strlit("asset.list");
    reveal_strlit("asset.info");
    reveal_strlit("dashboard.list");
    reveal_strlit("dashboard.info");
    reveal_strlit("share.inbox");
    reveal_strlit("message.inbox");
    reveal_strlit("message.history");
    reveal_strlit("network.peers");
    reveal_strlit("domain.list");
    reveal_strlit("gateway.status");
    reveal_strlit("gateway.list");
    reveal_strlit("system.check_update");
    reveal_strlit("intelligence.stats");
    reveal_strlit("auth.list_sessions");
    reveal_strlit("chain.lookup_cross_receipt");
    reveal_strlit("config.show");
    reveal_strlit("config.get");
    reveal_strlit("caesar.transfer");
    reveal_strlit("caesar.staking");
    reveal_strlit("caesar.rewards");
    reveal_strlit("asset.register");
    reveal_strlit("store");
    reveal_strlit("fetch");
    reveal_strlit("share.send");
    reveal_strlit("share.accept");
    reveal_strlit("share.reject");
    reveal_strlit("message.send");
    reveal_strlit("message.read");
    reveal_strlit("dashboard.deploy");
    reveal_strlit("dns.register");
    reveal_strlit("domain.register");
    reveal_strlit("domain.join");
    reveal_strlit("domain.create");
    reveal_strlit("gateway.transfer");
    assert forall|i: int| 0 <= i < view_only_methods().len() implies view_only_methods()[i] != "trustchain.request_cert"@ by {
        assert(view_only_methods()[i].len() != "trustchain.request_cert"@.len() || view_only_methods()[i] != "trustchain.request_cert"@);
    }
    assert forall|i: int| 0 <= i < wallet_methods().len() implies wallet_methods()[i] != "trustchain.request_cert"@ by {
        assert(wallet_methods()[i].len() != "trustchain.request_cert"@.len() || wallet_methods()[i] != "trustchain.request_cert"@);
    }
    assert forall|i: int| 0 <= i < asset_write_methods().len() implies asset_write_methods()[i] != "trustchain.request_cert"@ by {
        assert(asset_write_methods()[i].len() != "trustchain.request_cert"@.len() || asset_write_methods()[i] != "trustchain.request_cert"@);
    }
}

proof fn lemma_unlisted_gateway_initiate_transfer()
    ensures
        !view_only_methods().contains("gateway.initiate_transfer"@),
        !wallet_methods().contains("gateway.initiate_transfer"@),
        !asset_write_methods().contains("gateway.initiate_transfer"@),
{
    reveal_strlit("gateway.initiate_transfer");
    reveal_strlit("ping");
    reveal_strlit("status");
    reveal_strlit("topology.info");
    reveal_strlit("topology.neighbors");
    reveal_strlit("topology.routing_cost");
    reveal_strlit("topology.path");
    reveal_strlit("blockchain.height");
    reveal_strlit("blockchain.block");
    reveal_strlit("blockchain.validate");
    reveal_strlit("caesar.balance");
    reveal_strlit("caesar.transactions");
    reveal_strlit("caesar.overview");
    reveal_strlit("engauge.capacity");
    reveal_strlit("engauge.traffic");
    reveal_strlit("engauge.routing");
    reveal_strlit("engauge.throttle");
    reveal_strlit("trustchain.identity");
    reveal_strlit("trustchain.status");
    reveal_strlit("trustchain.certs");
    reveal_strlit("trustchain.federation");
    reveal_strlit("identity.pubkey");
    reveal_strlit("peer.pubkey");
    reveal_strlit("stoq.stats");
    reveal_strlit("stoq.connections");
    reveal_strlit("stoq.performance");
    reveal_strlit("dns.resolve");
    reveal_strlit("dns.list");
    reveal_strlit("asset.list");
    reveal_strlit("asset.info");
    reveal_strlit("dashboard.list");
    reveal_strlit("dashboard.info");
    reveal_strlit("share.inbox");
    reveal_strlit("message.inbox");
    reveal_strlit("message.history");
    reveal_strlit("network.peers");
    reveal_strlit("domain.list");
    reveal_strlit("gateway.status");
    reveal_strlit("gateway.list");
    reveal_strlit("system.check_update");
    reveal_strlit("intelligence.stats");
    reveal_strlit("auth.list_sessions");
    reveal_strlit("chain.lookup_cross_receipt");
    reveal_strlit("config.show");
    reveal_strlit("config.get");
    reveal_strlit("caesar.transfer");
    reveal_strlit("caesar.staking");
    reveal_strlit("caesar.rewards");
    reveal_strlit("asset.register");
    reveal_strlit("store");
    reveal_strlit("fetch");
    reveal_strlit("share.send");
    reveal_strlit("share.accept");
    reveal_strlit("share.reject");
    reveal_strlit("message.send");
    reveal_strlit("message.read");
    reveal_strlit("dashboard.deploy");
    reveal_strlit("dns.register");
    reveal_strlit("domain.register");
    reveal_strlit("domain.join");
    reveal_strlit("domain.create");
    reveal_strlit("gateway.transfer");
    assert forall|i: int| 0 <= i < view_only_methods().len() implies view_only_methods()[i] != "gateway.initiate_transfer"@ by {
        assert(view_only_methods()[i].len() != "gateway.initiate_transfer"@.len() || view_only_methods()[i] != "gateway.initiate_transfer"@);
    }
    assert forall|i: int| 0 <= i < wallet_methods().len() implies wallet_methods()[i] != "gateway.initiate_transfer"@ by {
        assert(wallet_methods()[i].len() != "gateway.initiate_transfer"@.len() || wallet_methods()[i] != "gateway.initiate_transfer"@);
    }
    assert forall|i: int| 0 <= i < asset_write_methods().len() implies asset_write_methods()[i] != "gateway.initiate_transfer"@ by {
        assert(asset_write_methods()[i].len() != "gateway.initiate_transfer"@.len() || asset_write_methods()[i] != "gateway.initiate_transfer"@);
    }
}

proof fn lemma_unlisted_identity_rotate()
    ensures
        !view_only_methods().contains("identity.rotate"@),
        !wallet_methods().contains("identity.rotate"@),
        !asset_write_methods().contains("identity.rotate"@),
{
    reveal_strlit("identity.rotate");
    reveal_strlit("ping");
    reveal_strlit("status");
    reveal_strlit("topology.info");
    reveal_strlit("topology.neighbors");
    reveal_strlit("topology.routing_cost");
    reveal_strlit("topology.path");
    reveal_strlit("blockchain.height");
    reveal_strlit("blockchain.block");
    reveal_strlit("blockchain.validate");
    reveal_strlit("caesar.balance");
    reveal_strlit("caesar.transactions");
    reveal_strlit("caesar.overview");
    reveal_strlit("engauge.capacity");
    reveal_strlit("engauge.traffic");
    reveal_strlit("engauge.routing");
    reveal_strlit("engauge.throttle");
    reveal_strlit("trustchain.identity");
    reveal_strlit("trustchain.status");
    reveal_strlit("trustchain.certs");
    reveal_strlit("trustchain.federation");
    reveal_strlit("identity.pubkey");
    reveal_strlit("peer.pubkey");
    reveal_strlit("stoq.stats");
    reveal_strlit("stoq.connections");
    reveal_strlit("stoq.performance");
    reveal_strlit("dns.resolve");
    reveal_strlit("dns.list");
    reveal_strlit("asset.list");
    reveal_strlit("asset.info");
    reveal_strlit("dashboard.list");
    reveal_strlit("dashboard.info");
    reveal_strlit("share.inbox");
    reveal_strlit("message.inbox");
    reveal_strlit("message.history");
    reveal_strlit("network.peers");
    reveal_strlit("domain.list");
    reveal_strlit("gateway.status");
    reveal_strlit("gateway.list");
    reveal_strlit("system.check_update");
    reveal_strlit("intelligence.stats");
    reveal_strlit("auth.list_sessions");
    reveal_strlit("chain.lookup_cross_receipt");
    reveal_strlit("config.show");
    reveal_strlit("config.get");
    reveal_strlit("caesar.transfer");
    reveal_strlit("caesar.staking");
    reveal_strlit("caesar.rewards");
    reveal_strlit("asset.register");
    reveal_strlit("store");
    reveal_strlit("fetch");
    reveal_strlit("share.send");
    reveal_strlit("share.accept");
    reveal_strlit("share.reject");
    reveal_strlit("message.send");
    reveal_strlit("message.read");
    reveal_strlit("dashboard.deploy");
    reveal_strlit("dns.register");
    reveal_strlit("domain.register");
    reveal_strlit("domain.join");
    reveal_strlit("domain.create");
    reveal_strlit("gateway.transfer");
    assert("identity.rotate"@[0] != "caesar.overview"@[0]);
    assert("identity.rotate"@[0] != "engauge.traffic"@[0]);
    assert("identity.rotate"@[0] != "engauge.routing"@[0]);
    assert("identity.rotate"@[9] != "identity.pubkey"@[9]);
    assert("identity.rotate"@[0] != "message.history"@[0]);
    assert("identity.rotate"@[0] != "caesar.transfer"@[0]);
    assert("identity.rotate"@[0] != "domain.register"@[0]);
    assert forall|i: int| 0 <= i < view_only_methods().len() implies view_only_methods()[i] != "identity.rotate"@ by {
        assert(view_only_methods()[i].len() != "identity.rotate"@.len() || view_only_methods()[i] != "identity.rotate"@);
    }
    assert forall|i: int| 0 <= i < wallet_methods().len() implies wallet_methods()[i] != "identity.rotate"@ by {
        assert(wallet_methods()[i].len() != "identity.rotate"@.len() || wallet_methods()[i] != "identity.rotate"@);
    }
    assert forall|i: int| 0 <= i < asset_write_methods().len() implies asset_write_methods()[i] != "identity.rotate"@ by {
        assert(asset_write_methods()[i].len() != "identity.rotate"@.len() || asset_write_methods()[i] != "identity.rotate"@);
    }
}

/// The writing and privileged methods of the registry, each by name: the
/// Caesar transfer, staking and rewards calls need `Wallet`; asset, store,
/// fetch, share, message writes, dashboard deploys and DNS, domain and
/// gateway registrations need `AssetWrite`; shutdown, configuration
/// writes, foundation grants, session management, updates, certificate
/// requests, transfers and key rotation need `Admin`.
pub proof fn law_write_methods_need_their_scope()
    ensures
        required_capability_spec("caesar.transfer"@) == Capability::Wallet,
        required_capability_spec("caesar.staking"@) == Capability::Wallet,
        required_capability_spec("caesar.rewards"@) == Capability::Wallet,
        required_capability_spec("asset.register"@) == Capability::AssetWrite,
        required_capability_spec("store"@) == Capability::AssetWrite,
        required_capability_spec("fetch"@) == Capability::AssetWrite,
        required_capability_spec("share.send"@) == Capability::AssetWrite,
        required_capability_spec("share.accept"@) == Capability::AssetWrite,
        required_capability_spec("share.reject"@) == Capability::AssetWrite,
        required_capability_spec("message.send"@) == Capability::AssetWrite,
        required_capability_spec("message.read"@) == Capability::AssetWrite,
        required_capability_spec("dashboard.deploy"@) == Capability::AssetWrite,
        required_capability_spec("dns.register"@) == Capability::AssetWrite,
        required_capability_spec("domain.register"@) == Capability::AssetWrite,
        required_capability_spec("domain.join"@) == Capability::AssetWrite,
        required_capability_spec("domain.create"@) == Capability::AssetWrite,
        required_capability_spec("gateway.transfer"@) == Capability::AssetWrite,
        required_capability_spec("shutdown"@) == Capability::Admin,
        required_capability_spec("config.set"@) == Capability::Admin,
        required_capability_spec("dns.foundation_grant"@) == Capability::Admin,
        required_capability_spec("auth.create_session"@) == Capability::Admin,
        required_capability_spec("auth.revoke_session"@) == Capability::Admin,
        required_capability_spec("system.apply_update"@) == Capability::Admin,
        required_capability_spec("trustchain.request_cert"@) == Capability::Admin,
        required_capability_spec("gateway.initiate_transfer"@) == Capability::Admin,
        required_capability_spec("identity.rotate"@) == Capability::Admin,
{
    lemma_unlisted_caesar_transfer();
    lemma_unlisted_caesar_staking();
    lemma_unlisted_caesar_rewards();
    lemma_unlisted_asset_register();
    lemma_unlisted_store();
    lemma_unlisted_fetch();
    lemma_unlisted_share_send();
    lemma_unlisted_share_accept();
    lemma_unlisted_share_reject();
    lemma_unlisted_message_send();
    lemma_unlisted_message_read();
    lemma_unlisted_dashboard_deploy();
    lemma_unlisted_dns_register();
    lemma_unlisted_domain_register();
    lemma_unlisted_domain_join();
    lemma_unlisted_domain_create();
    lemma_unlisted_gateway_transfer();
    lemma_unlisted_shutdown();
    lemma_unlisted_config_set();
    lemma_unlisted_dns_foundation_grant();
    lemma_unlisted_auth_create_session();
    lemma_unlisted_auth_revoke_session();
    lemma_unlisted_system_apply_update();
    lemma_unlisted_trustchain_request_cert();
    lemma_unlisted_gateway_initiate_transfer();
    lemma_unlisted_identity_rotate();
    assert(wallet_methods()[0] == "caesar.transfer"@);
    assert(wallet_methods()[1] == "caesar.staking"@);
    assert(wallet_methods()[2] == "caesar.rewards"@);
    assert(asset_write_methods()[0] == "asset.register"@);
    assert(asset_write_methods()[1] == "store"@);
    assert(asset_write_methods()[2] == "fetch"@);
    assert(asset_write_methods()[3] == "share.send"@);
    assert(asset_write_methods()[4] == "share.accept"@);
    assert(asset_write_methods()[5] == "share.reject"@);
    assert(asset_write_methods()[6] == "message.send"@);
    assert(asset_write_methods()[7] == "message.read"@);
    assert(asset_write_methods()[8] == "dashboard.deploy"@);
    assert(asset_write_methods()[9] == "dns.register"@);
    assert(asset_write_methods()[10] == "domain.register"@);
    assert(asset_write_methods()[11] == "domain.join"@);
    assert(asset_write_methods()[12] == "domain.create"@);
    assert(asset_write_methods()[13] == "gateway.transfer"@);
}

/// A token that carries `Admin` passes the scope check for every method.
pub proof fn law_admin_allows_everything(granted: Seq<Capability>, method: Seq<char>)
    requires
        granted.contains(Capability::Admin),
    ensures
        allows_spec(granted, required_capability_spec(method)),
{
}

/// A method outside every table requires `Admin` (fail-closed).
pub proof fn law_unlisted_methods_require_admin(method: Seq<char>)
    requires
        !view_only_methods().contains(method),
        !wallet_methods().contains(method),
        !asset_write_methods().contains(method),
    ensures
        required_capability_spec(method) == Capability::Admin,
{
}

} // verus!
