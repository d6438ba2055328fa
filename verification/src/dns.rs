//! Name service requests: `dns.resolve`, `dns.list`, `dns.reserved` and
//! `dns.foundation_grant`.

use vstd::prelude::*;
use vstd::utf8::encode_utf8;
use crate::codecs::{hex_decodable, hex_decode, hex_decoded, hex_encode, hex_error_text, hex_text};
use crate::json::{
    JsonModel, JsonValue, json_get_str, json_get_u64, models_of, new_entries, new_items, push_entry,
    push_item,
};
use crate::protocol::{RpcError, INTERNAL_ERROR, INVALID_PARAMS, is_error};
use crate::text::{concat2, concat3};

verus! {

/// The name a `dns.resolve` call asks for.
pub fn dns_resolve_name(params: &JsonValue) -> (r: Result<String, RpcError>)
    ensures
        match json_get_str(params@, "name"@) {
            Some(n) => r matches Ok(s) && s@ == n,
            None => r matches Err(e) && is_error(e, INVALID_PARAMS, "missing 'name' parameter"@),
        },
{
    proof {
        reveal_strlit("missing 'name' parameter");
    }
    match params.get_str("name") {
        Some(n) => Ok(String::from_str(n)),
        None => Err(RpcError::new(INVALID_PARAMS, String::from_str("missing 'name' parameter"))),
    }
}

/// Reply to `dns.resolve`: the address when the name resolved, else a
/// null address and `"not found"`.
pub open spec fn resolve_reply_spec(name: Seq<char>, address: Option<Seq<char>>) -> JsonModel {
    match address {
        Some(a) => JsonModel::Object(
            seq![("name"@, JsonModel::Str(name)), ("address"@, JsonModel::Str(a))],
        ),
        None => JsonModel::Object(
            seq![
                ("name"@, JsonModel::Str(name)),
                ("address"@, JsonModel::Null),
                ("error"@, JsonModel::Str("not found"@)),
            ],
        ),
    }
}

pub open spec fn opt_str_view(o: Option<&str>) -> Option<Seq<char>> {
    match o {
        Some(s) => Some(s@),
        None => None,
    }
}

/// Build the `dns.resolve` reply (see `resolve_reply_spec`).
pub fn dns_resolve_reply(name: &str, address: Option<&str>) -> (r: JsonValue)
    ensures
        r@ == resolve_reply_spec(name@, opt_str_view(address)),
{
    proof {
        reveal_strlit("not found");
    }
    let mut entries = new_entries();
    push_entry(&mut entries, "name", JsonValue::from_str_slice(name));
    match address {
        Some(a) => {
            push_entry(&mut entries, "address", JsonValue::from_str_slice(a));
            assert(crate::json::entry_models_of(entries@) =~= seq![
                ("name"@, JsonModel::Str(name@)),
                ("address"@, JsonModel::Str(a@)),
            ]);
        },
        None => {
            push_entry(&mut entries, "address", JsonValue::Null);
            push_entry(&mut entries, "error", JsonValue::from_str_slice("not found"));
            assert(crate::json::entry_models_of(entries@) =~= seq![
                ("name"@, JsonModel::Str(name@)),
                ("address"@, JsonModel::Null),
                ("error"@, JsonModel::Str("not found"@)),
            ]);
        },
    }
    JsonValue::Object(entries)
}

/// One record of `dns.list`.
pub open spec fn record_json(rec: (Seq<char>, Seq<char>)) -> JsonModel {
    JsonModel::Object(seq![("name"@, JsonModel::Str(rec.0)), ("address"@, JsonModel::Str(rec.1))])
}

pub open spec fn records_view(rs: Seq<(String, String)>) -> Seq<(Seq<char>, Seq<char>)> {
    rs.map_values(|p: (String, String)| (p.0@, p.1@))
}

/// Reply to `dns.list`: every `(name, address)` record in order, and
/// their number.
pub fn dns_list_reply(records: &Vec<(String, String)>) -> (r: JsonValue)
    ensures
        r@ == JsonModel::Object(
            seq![
                (
                    "records"@,
                    JsonModel::Array(
                        records_view(records@).map_values(
                            |rec: (Seq<char>, Seq<char>)| record_json(rec),
                        ),
                    ),
                ),
                ("count"@, JsonModel::UInt(records@.len() as u64)),
            ],
        ),
{
    let mut items = new_items();
    let mut i: usize = 0;
    while i < records.len()
        invariant
            i <= records@.len(),
            models_of(items@) == records_view(records@.take(i as int)).map_values(
                |rec: (Seq<char>, Seq<char>)| record_json(rec),
            ),
        decreases records@.len() - i,
    {
        let ghost before = models_of(items@);
        let mut e = new_entries();
        push_entry(&mut e, "name", JsonValue::from_str_slice(records[i].0.as_str()));
        push_entry(&mut e, "address", JsonValue::from_str_slice(records[i].1.as_str()));
        let ghost rec = (records@[i as int].0@, records@[i as int].1@);
        assert(crate::json::entry_models_of(e@) =~= seq![
            ("name"@, JsonModel::Str(rec.0)),
            ("address"@, JsonModel::Str(rec.1)),
        ]);
        push_item(&mut items, JsonValue::Object(e));
        assert(records@.take(i + 1) =~= records@.take(i as int).push(records@[i as int]));
        assert(records_view(records@.take(i + 1)).map_values(
            |rec: (Seq<char>, Seq<char>)| record_json(rec),
        ) =~= before.push(record_json(rec)));
        i = i + 1;
    }
    assert(records@.take(records@.len() as int) =~= records@);
    let mut entries = new_entries();
    push_entry(&mut entries, "records", JsonValue::Array(items));
    push_entry(&mut entries, "count", JsonValue::UInt(records.len() as u64));
    assert(crate::json::entry_models_of(entries@) =~= seq![
        (
            "records"@,
            JsonModel::Array(
                records_view(records@).map_values(|rec: (Seq<char>, Seq<char>)| record_json(rec)),
            ),
        ),
        ("count"@, JsonModel::UInt(records@.len() as u64)),
    ]);
    JsonValue::Object(entries)
}

/// Reply to `dns.reserved`: the reserved domains in order, and their number.
pub fn dns_reserved_reply(domains: &Vec<String>) -> (r: JsonValue)
    ensures
        r@ == JsonModel::Object(
            seq![
                (
                    "domains"@,
                    JsonModel::Array(domains@.map_values(|d: String| JsonModel::Str(d@))),
                ),
                ("count"@, JsonModel::UInt(domains@.len() as u64)),
            ],
        ),
{
    let mut items = new_items();
    let mut i: usize = 0;
    while i < domains.len()
        invariant
            i <= domains@.len(),
            models_of(items@) == domains@.take(i as int).map_values(|d: String| JsonModel::Str(d@)),
        decreases domains@.len() - i,
    {
        let ghost before = models_of(items@);
        push_item(&mut items, JsonValue::from_str_slice(domains[i].as_str()));
        assert(domains@.take(i + 1) =~= domains@.take(i as int).push(domains@[i as int]));
        assert(domains@.take(i + 1).map_values(|d: String| JsonModel::Str(d@)) =~= before.push(
            JsonModel::Str(domains@[i as int]@),
        ));
        i = i + 1;
    }
    assert(domains@.take(domains@.len() as int) =~= domains@);
    let mut entries = new_entries();
    push_entry(&mut entries, "domains", JsonValue::Array(items));
    push_entry(&mut entries, "count", JsonValue::UInt(domains.len() as u64));
    assert(crate::json::entry_models_of(entries@) =~= seq![
        ("domains"@, JsonModel::Array(domains@.map_values(|d: String| JsonModel::Str(d@)))),
        ("count"@, JsonModel::UInt(domains@.len() as u64)),
    ]);
    JsonValue::Object(entries)
}

/// A checked `dns.foundation_grant` call.
#[derive(Debug)]
pub struct GrantRequest {
    pub domain: String,
    pub recipient_pubkey: Vec<u8>,
    pub valid_until_secs: u64,
    /// Defaults to `valid_until_secs`.
    pub dues_paid_until_secs: u64,
}

/// Outcome of the checks on a `dns.foundation_grant` call, given whether a
/// foundation signing key is configured and whether the requested domain
/// is on the reserved list: the error code and message, or the domain, the
/// recipient's key bytes and the two expiry times.
pub open spec fn grant_request_spec(params: JsonModel, key_configured: bool, domain_reserved: bool) -> Result<
    (Seq<char>, Seq<u8>, u64, u64),
    (i64, Seq<char>),
> {
    if !key_configured {
        Err((INTERNAL_ERROR, "foundation root key not configured (alpha-default inert)"@))
    } else {
        match json_get_str(params, "domain"@) {
            None => Err((INVALID_PARAMS, "missing 'domain' parameter"@)),
            Some(domain) => if !domain_reserved {
                Err(
                    (
                        INVALID_PARAMS,
                        "domain '"@ + domain + "' is not on the foundation reserved list"@,
                    ),
                )
            } else {
                match json_get_str(params, "recipient_pubkey"@) {
                    None => Err((INVALID_PARAMS, "missing 'recipient_pubkey' parameter"@)),
                    Some(h) => if !hex_decodable(encode_utf8(h)) {
                        Err((INVALID_PARAMS, "recipient_pubkey hex decode failed: "@ + hex_error_text(h)))
                    } else {
                        match json_get_u64(params, "valid_until_secs"@) {
                            None => Err((INVALID_PARAMS, "missing 'valid_until_secs' parameter"@)),
                            Some(valid) => Ok(
                                (
                                    domain,
                                    hex_decoded(encode_utf8(h)),
                                    valid,
                                    match json_get_u64(params, "dues_paid_until_secs"@) {
                                        Some(d) => d,
                                        None => valid,
                                    },
                                ),
                            ),
                        }
                    }
                }
            },
        }
    }
}

/// Check a `dns.foundation_grant` call (see `grant_request_spec`);
/// `domain_reserved` is whether the `domain` parameter is a reserved name.
pub fn foundation_grant_request(params: &JsonValue, key_configured: bool, domain_reserved: bool) -> (r:
    Result<GrantRequest, RpcError>)
    ensures
        match grant_request_spec(params@, key_configured, domain_reserved) {
            Ok((domain, key, valid, dues)) => r matches Ok(g) && g.domain@ == domain
                && g.recipient_pubkey@ == key && g.valid_until_secs == valid
                && g.dues_paid_until_secs == dues,
            Err((code, msg)) => r matches Err(e) && is_error(e, code, msg),
        },
{
    proof {
        reveal_strlit("foundation root key not configured (alpha-default inert)");
        reveal_strlit("missing 'domain' parameter");
        reveal_strlit("domain '");
        reveal_strlit("' is not on the foundation reserved list");
        reveal_strlit("missing 'recipient_pubkey' parameter");
        reveal_strlit("recipient_pubkey hex decode failed: ");
        reveal_strlit("missing 'valid_until_secs' parameter");
    }
    if !key_configured {
        return Err(
            RpcError::new(
                INTERNAL_ERROR,
                String::from_str("foundation root key not configured (alpha-default inert)"),
            ),
        );
    }
    let domain = match params.get_str("domain") {
        Some(d) => d,
        None => {
            return Err(RpcError::new(INVALID_PARAMS, String::from_str("missing 'domain' parameter")));
        },
    };
    if !domain_reserved {
        return Err(
            RpcError::new(
                INVALID_PARAMS,
                concat3("domain '", domain, "' is not on the foundation reserved list"),
            ),
        );
    }
    let recipient_hex = match params.get_str("recipient_pubkey") {
        Some(h) => h,
        None => {
            return Err(
                RpcError::new(INVALID_PARAMS, String::from_str("missing 'recipient_pubkey' parameter")),
            );
        },
    };
    let recipient_pubkey = match hex_decode(recipient_hex) {
        Ok(b) => b,
        Err(e) => {
            return Err(
                RpcError::new(
                    INVALID_PARAMS,
                    concat2("recipient_pubkey hex decode failed: ", e.as_str()),
                ),
            );
        },
    };
    let valid_until_secs = match params.get_u64("valid_until_secs") {
        Some(v) => v,
        None => {
            return Err(
                RpcError::new(INVALID_PARAMS, String::from_str("missing 'valid_until_secs' parameter")),
            );
        },
    };
    let dues_paid_until_secs = match params.get_u64("dues_paid_until_secs") {
        Some(d) => d,
        None => valid_until_secs,
    };
    Ok(
        GrantRequest {
            domain: String::from_str(domain),
            recipient_pubkey,
            valid_until_secs,
            dues_paid_until_secs,
        },
    )
}

/// Error when signing the grant failed.
pub fn grant_sign_failed(detail: &str) -> (r: RpcError)
    ensures
        is_error(r, INTERNAL_ERROR, "FALCON sign failed: "@ + detail@),
{
    proof {
        reveal_strlit("FALCON sign failed: ");
    }
    RpcError::new(INTERNAL_ERROR, concat2("FALCON sign failed: ", detail))
}

/// Error when the signed grant could not be put in JSON form.
pub fn grant_serialize_failed(detail: &str) -> (r: RpcError)
    ensures
        is_error(r, INTERNAL_ERROR, "serialize grant: "@ + detail@),
{
    proof {
        reveal_strlit("serialize grant: ");
    }
    RpcError::new(INTERNAL_ERROR, concat2("serialize grant: ", detail))
}

/// Reply for a signed grant: the grant, its domain, when it was issued,
/// the foundation key in hex and the grant's type name.
pub fn grant_reply(grant: JsonValue, domain: &str, issued_at_secs: u64, foundation_pubkey: &[u8]) -> (r:
    JsonValue)
    ensures
        r@ == JsonModel::Object(
            seq![
                ("grant"@, grant@),
                ("domain"@, JsonModel::Str(domain@)),
                ("issued_at_secs"@, JsonModel::UInt(issued_at_secs)),
                ("foundation_pubkey"@, JsonModel::Str(hex_text(foundation_pubkey@))),
                ("typedef"@, JsonModel::Str("foundation.dns_grant/v1"@)),
            ],
        ),
{
    proof {
        reveal_strlit("foundation.dns_grant/v1");
    }
    let ghost g = grant@;
    let mut entries = new_entries();
    push_entry(&mut entries, "grant", grant);
    push_entry(&mut entries, "domain", JsonValue::from_str_slice(domain));
    push_entry(&mut entries, "issued_at_secs", JsonValue::UInt(issued_at_secs));
    push_entry(&mut entries, "foundation_pubkey", JsonValue::Str(hex_encode(foundation_pubkey)));
    push_entry(&mut entries, "typedef", JsonValue::from_str_slice("foundation.dns_grant/v1"));
    assert(crate::json::entry_models_of(entries@) =~= seq![
        ("grant"@, g),
        ("domain"@, JsonModel::Str(domain@)),
        ("issued_at_secs"@, JsonModel::UInt(issued_at_secs)),
        ("foundation_pubkey"@, JsonModel::Str(hex_text(foundation_pubkey@))),
        ("typedef"@, JsonModel::Str("foundation.dns_grant/v1"@)),
    ]);
    JsonValue::Object(entries)
}

} // verus!
