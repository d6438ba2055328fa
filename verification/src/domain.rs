//! Domain requests: `domain.register`, `domain.list` and `domain.join`.

use vstd::prelude::*;
use vstd::utf8::encode_utf8;
use crate::json::{
    JsonModel, JsonValue, json_get_str, models_of, new_entries, new_items, push_entry, push_item,
};
use crate::protocol::{RpcError, INTERNAL_ERROR, INVALID_PARAMS, is_error};
use crate::text::{concat2, concat3, str_eq, utf8_bytes};

verus! {

/// Who may see a registered domain.
#[derive(PartialEq, Eq, Structural, Clone, Copy, Debug)]
pub enum DomainPrivacy {
    Public,
    Anonymous,
    Private,
}

/// The privacy a label asks for: `"Public"` and `"Anonymous"` by their
/// exact names, anything else private.
pub open spec fn privacy_of_label(label: Seq<char>) -> DomainPrivacy {
    if label == "Public"@ {
        DomainPrivacy::Public
    } else if label == "Anonymous"@ {
        DomainPrivacy::Anonymous
    } else {
        DomainPrivacy::Private
    }
}

/// The privacy a label asks for (see `privacy_of_label`).
pub fn privacy_from_label(label: &str) -> (r: DomainPrivacy)
    ensures
        r == privacy_of_label(label@),
{
    proof {
        reveal_strlit("Public");
        reveal_strlit("Anonymous");
    }
    if str_eq(label, "Public") {
        DomainPrivacy::Public
    } else if str_eq(label, "Anonymous") {
        DomainPrivacy::Anonymous
    } else {
        DomainPrivacy::Private
    }
}

/// A checked `domain.register` call.
#[derive(Debug)]
pub struct DomainRegisterPlan {
    pub name: String,
    /// The privacy label as given (`"Private"` when absent).
    pub privacy_label: String,
    pub privacy: DomainPrivacy,
}

/// Outcome of the checks on `domain.register` against the names already
/// registered: the error message, or the name and the privacy label.
pub open spec fn domain_register_spec(params: JsonModel, existing: Seq<Seq<char>>) -> Result<
    (Seq<char>, Seq<char>),
    Seq<char>,
> {
    match json_get_str(params, "name"@) {
        None => Err("missing 'name' parameter"@),
        Some(name) => if existing.contains(name) {
            Err("domain '"@ + name + "' already registered"@)
        } else {
            Ok(
                (
                    name,
                    match json_get_str(params, "privacy"@) {
                        Some(p) => p,
                        None => "Private"@,
                    },
                ),
            )
        },
    }
}

/// A name already registered is never registered again: wherever it stands
/// among the existing names, the call is refused with "already
/// registered"; and an accepted registration carries the requested name,
/// which none of the existing names equals.
pub proof fn law_duplicate_domain_refused(params: JsonModel, existing: Seq<Seq<char>>, i: int)
    ensures
        match json_get_str(params, "name"@) {
            Some(n) => (0 <= i < existing.len() && existing[i] == n) ==> domain_register_spec(
                params,
                existing,
            ) == Err::<(Seq<char>, Seq<char>), Seq<char>>("domain '"@ + n + "' already registered"@),
            None => true,
        },
        match domain_register_spec(params, existing) {
            Ok((name, _)) => json_get_str(params, "name"@) == Some(name) && (0 <= i < existing.len()
                ==> existing[i] != name),
            Err(_) => true,
        },
{
    if let Some(n) = json_get_str(params, "name"@) {
        if 0 <= i < existing.len() && existing[i] == n {
            assert(existing.contains(n));
        }
    }
}

fn contains_name(names: &Vec<String>, name: &str) -> (r: bool)
    ensures
        r == names@.map_values(|s: String| s@).contains(name@),
{
    let ghost view = names@.map_values(|s: String| s@);
    let mut i: usize = 0;
    while i < names.len()
        invariant
            i <= names@.len(),
            view == names@.map_values(|s: String| s@),
            forall|k: int| 0 <= k < i ==> view[k] != name@,
        decreases names@.len() - i,
    {
        if str_eq(names[i].as_str(), name) {
            assert(view[i as int] == name@);
            return true;
        }
        i = i + 1;
    }
    false
}

/// Check a `domain.register` call against the names already registered
/// (see `domain_register_spec`); the privacy follows `privacy_of_label`.
pub fn prepare_domain_register(params: &JsonValue, existing: &Vec<String>) -> (r: Result<
    DomainRegisterPlan,
    RpcError,
>)
    ensures
        match domain_register_spec(params@, existing@.map_values(|s: String| s@)) {
            Ok((name, label)) => r matches Ok(p) && p.name@ == name && p.privacy_label@ == label
                && p.privacy == privacy_of_label(label),
            Err(msg) => r matches Err(e) && is_error(e, INVALID_PARAMS, msg),
        },
{
    proof {
        reveal_strlit("missing 'name' parameter");
        reveal_strlit("domain '");
        reveal_strlit("' already registered");
        reveal_strlit("Private");
    }
    let name = match params.get_str("name") {
        Some(n) => n,
        None => {
            return Err(RpcError::new(INVALID_PARAMS, String::from_str("missing 'name' parameter")));
        },
    };
    let label = match params.get_str("privacy") {
        Some(p) => p,
        None => "Private",
    };
    if contains_name(existing, name) {
        return Err(RpcError::new(INVALID_PARAMS, concat3("domain '", name, "' already registered")));
    }
    Ok(
        DomainRegisterPlan {
            name: String::from_str(name),
            privacy_label: String::from_str(label),
            privacy: privacy_from_label(label),
        },
    )
}

/// The configuration, definition and metadata bytes a domain registers
/// with on the chain.
pub fn domain_asset_data(name: &str, network_id: &str, privacy_label: &str) -> (r: (
    Vec<u8>,
    Vec<u8>,
    Vec<u8>,
))
    ensures
        r.0@ == encode_utf8("DOMAIN:REGISTER:"@ + name@),
        r.1@ == encode_utf8("domain-registration:"@ + name@),
        r.2@ == encode_utf8("network_id="@ + network_id@ + ",privacy="@ + privacy_label@),
{
    proof {
        reveal_strlit("DOMAIN:REGISTER:");
        reveal_strlit("domain-registration:");
        reveal_strlit("network_id=");
        reveal_strlit(",privacy=");
    }
    let config = concat2("DOMAIN:REGISTER:", name);
    let definition = concat2("domain-registration:", name);
    let head = concat3("network_id=", network_id, ",privacy=");
    let metadata = concat2(head.as_str(), privacy_label);
    (utf8_bytes(config.as_str()), utf8_bytes(definition.as_str()), utf8_bytes(metadata.as_str()))
}

/// Error when the node's proof of state could not be produced.
pub fn proof_generation_failed(detail: &str) -> (r: RpcError)
    ensures
        is_error(r, INTERNAL_ERROR, "PoS proof generation failed: "@ + detail@),
{
    proof {
        reveal_strlit("PoS proof generation failed: ");
    }
    RpcError::new(INTERNAL_ERROR, concat2("PoS proof generation failed: ", detail))
}

/// Reply for a registered domain.
pub fn domain_registered_reply(
    name: &str,
    network_id: &str,
    privacy_label: &str,
    owner: &str,
    block: u64,
) -> (r: JsonValue)
    ensures
        r@ == JsonModel::Object(
            seq![
                ("domain"@, JsonModel::Str(name@)),
                ("network_id"@, JsonModel::Str(network_id@)),
                ("privacy"@, JsonModel::Str(privacy_label@)),
                ("owner"@, JsonModel::Str(owner@)),
                ("block"@, JsonModel::UInt(block)),
                ("status"@, JsonModel::Str("registered"@)),
            ],
        ),
{
    proof {
        reveal_strlit("registered");
    }
    let mut entries = new_entries();
    push_entry(&mut entries, "domain", JsonValue::from_str_slice(name));
    push_entry(&mut entries, "network_id", JsonValue::from_str_slice(network_id));
    push_entry(&mut entries, "privacy", JsonValue::from_str_slice(privacy_label));
    push_entry(&mut entries, "owner", JsonValue::from_str_slice(owner));
    push_entry(&mut entries, "block", JsonValue::UInt(block));
    push_entry(&mut entries, "status", JsonValue::from_str_slice("registered"));
    assert(crate::json::entry_models_of(entries@) =~= seq![
        ("domain"@, JsonModel::Str(name@)),
        ("network_id"@, JsonModel::Str(network_id@)),
        ("privacy"@, JsonModel::Str(privacy_label@)),
        ("owner"@, JsonModel::Str(owner@)),
        ("block"@, JsonModel::UInt(block)),
        ("status"@, JsonModel::Str("registered"@)),
    ]);
    JsonValue::Object(entries)
}

/// A stored domain registration as `domain.list` shows it.
#[derive(Debug)]
pub struct DomainRow {
    pub domain: String,
    pub network_id: String,
    pub owner: String,
    pub privacy: String,
}

pub open spec fn domain_row_json(r: DomainRow) -> JsonModel {
    JsonModel::Object(
        seq![
            ("domain"@, JsonModel::Str(r.domain@)),
            ("network_id"@, JsonModel::Str(r.network_id@)),
            ("owner"@, JsonModel::Str(r.owner@)),
            ("privacy"@, JsonModel::Str(r.privacy@)),
        ],
    )
}

/// Reply to `domain.list`: the number of registrations and each one in order.
pub fn domain_list_reply(rows: &Vec<DomainRow>) -> (r: JsonValue)
    ensures
        r@ == JsonModel::Object(
            seq![
                ("count"@, JsonModel::UInt(rows@.len() as u64)),
                ("domains"@, JsonModel::Array(rows@.map_values(|d: DomainRow| domain_row_json(d)))),
            ],
        ),
{
    let mut items = new_items();
    let mut i: usize = 0;
    while i < rows.len()
        invariant
            i <= rows@.len(),
            models_of(items@) == rows@.take(i as int).map_values(|d: DomainRow| domain_row_json(d)),
        decreases rows@.len() - i,
    {
        let ghost before = models_of(items@);
        let row = &rows[i];
        let mut e = new_entries();
        push_entry(&mut e, "domain", JsonValue::from_str_slice(row.domain.as_str()));
        push_entry(&mut e, "network_id", JsonValue::from_str_slice(row.network_id.as_str()));
        push_entry(&mut e, "owner", JsonValue::from_str_slice(row.owner.as_str()));
        push_entry(&mut e, "privacy", JsonValue::from_str_slice(row.privacy.as_str()));
        assert(crate::json::entry_models_of(e@) =~= seq![
            ("domain"@, JsonModel::Str(row.domain@)),
            ("network_id"@, JsonModel::Str(row.network_id@)),
            ("owner"@, JsonModel::Str(row.owner@)),
            ("privacy"@, JsonModel::Str(row.privacy@)),
        ]);
        push_item(&mut items, JsonValue::Object(e));
        assert(rows@.take(i + 1) =~= rows@.take(i as int).push(rows@[i as int]));
        assert(rows@.take(i + 1).map_values(|d: DomainRow| domain_row_json(d)) =~= before.push(
            domain_row_json(rows@[i as int]),
        ));
        i = i + 1;
    }
    assert(rows@.take(rows@.len() as int) =~= rows@);
    let mut entries = new_entries();
    push_entry(&mut entries, "count", JsonValue::UInt(rows.len() as u64));
    push_entry(&mut entries, "domains", JsonValue::Array(items));
    assert(crate::json::entry_models_of(entries@) =~= seq![
        ("count"@, JsonModel::UInt(rows@.len() as u64)),
        ("domains"@, JsonModel::Array(rows@.map_values(|d: DomainRow| domain_row_json(d)))),
    ]);
    JsonValue::Object(entries)
}

/// The domain a `domain.join` call names.
pub fn domain_join_name(params: &JsonValue) -> (r: Result<String, RpcError>)
    ensures
        match json_get_str(params@, "domain"@) {
            Some(d) => r matches Ok(s) && s@ == d,
            None => r matches Err(e) && is_error(e, INVALID_PARAMS, "missing 'domain' parameter"@),
        },
{
    proof {
        reveal_strlit("missing 'domain' parameter");
    }
    match params.get_str("domain") {
        Some(d) => Ok(String::from_str(d)),
        None => Err(RpcError::new(INVALID_PARAMS, String::from_str("missing 'domain' parameter"))),
    }
}

/// Reply to `domain.join`: the join is recorded; syncing with the network
/// happens when the daemon connects.
pub fn domain_join_reply(domain: &str, network_id: &str, node_id: &str) -> (r: JsonValue)
    ensures
        r@ == JsonModel::Object(
            seq![
                ("domain"@, JsonModel::Str(domain@)),
                ("network_id"@, JsonModel::Str(network_id@)),
                ("node_id"@, JsonModel::Str(node_id@)),
                ("status"@, JsonModel::Str("join_recorded"@)),
                ("note"@, JsonModel::Str("connect daemon to sync with network peers"@)),
            ],
        ),
{
    proof {
        reveal_strlit("join_recorded");
        reveal_strlit("connect daemon to sync with network peers");
    }
    let mut entries = new_entries();
    push_entry(&mut entries, "domain", JsonValue::from_str_slice(domain));
    push_entry(&mut entries, "network_id", JsonValue::from_str_slice(network_id));
    push_entry(&mut entries, "node_id", JsonValue::from_str_slice(node_id));
    push_entry(&mut entries, "status", JsonValue::from_str_slice("join_recorded"));
    push_entry(
        &mut entries,
        "note",
        JsonValue::from_str_slice("connect daemon to sync with network peers"),
    );
    assert(crate::json::entry_models_of(entries@) =~= seq![
        ("domain"@, JsonModel::Str(domain@)),
        ("network_id"@, JsonModel::Str(network_id@)),
        ("node_id"@, JsonModel::Str(node_id@)),
        ("status"@, JsonModel::Str("join_recorded"@)),
        ("note"@, JsonModel::Str("connect daemon to sync with network peers"@)),
    ]);
    JsonValue::Object(entries)
}

} // verus!
