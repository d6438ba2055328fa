//! Asset registration requests: system type names, categories and the
//! checks on an `asset.register` call before it reaches the chain.

use vstd::prelude::*;
use vstd::utf8::encode_utf8;
use crate::codecs::{
    blake3_digest, blake3_hash, hex_decodable, hex_decode, hex_decoded, hex_encode, hex_error_text,
    hex_text,
};
use crate::json::{
    JsonModel, JsonValue, json_get, json_get_str, models_of, new_entries, new_items, push_entry,
    push_item,
};
use crate::protocol::{RpcError, INTERNAL_ERROR, INVALID_PARAMS, is_error};
use crate::text::{
    concat2, concat3, contains_str, contains_sub, str_eq, to_lowercase, unicode_lowercase,
};

verus! {

/// The built-in kinds of system asset.
#[derive(PartialEq, Eq, Structural, Clone, Copy, Debug)]
pub enum BaseSystemType {
    Cpu,
    Gpu,
    Memory,
    Storage,
    Network,
    Container,
    Economic,
    Blockchain,
    Dns,
    Transmission,
    Dashboard,
    Identity,
    KeyRotation,
    Invitation,
    Message,
}

/// The system type a lower-case name stands for.
pub open spec fn system_type_from_lower(s: Seq<char>) -> Option<BaseSystemType> {
    if s == "cpu"@ {
        Some(BaseSystemType::Cpu)
    } else if s == "gpu"@ {
        Some(BaseSystemType::Gpu)
    } else if s == "memory"@ {
        Some(BaseSystemType::Memory)
    } else if s == "storage"@ {
        Some(BaseSystemType::Storage)
    } else if s == "network"@ {
        Some(BaseSystemType::Network)
    } else if s == "container"@ {
        Some(BaseSystemType::Container)
    } else if s == "economic"@ {
        Some(BaseSystemType::Economic)
    } else if s == "blockchain"@ {
        Some(BaseSystemType::Blockchain)
    } else if s == "dns"@ {
        Some(BaseSystemType::Dns)
    } else if s == "transmission"@ {
        Some(BaseSystemType::Transmission)
    } else if s == "dashboard"@ {
        Some(BaseSystemType::Dashboard)
    } else if s == "identity"@ {
        Some(BaseSystemType::Identity)
    } else if s == "keyrotation"@ || s == "key_rotation"@ {
        Some(BaseSystemType::KeyRotation)
    } else if s == "invitation"@ {
        Some(BaseSystemType::Invitation)
    } else if s == "message"@ {
        Some(BaseSystemType::Message)
    } else {
        None
    }
}

/// The system type a lower-case name stands for.
pub fn system_type_from_lowercase(s: &str) -> (r: Option<BaseSystemType>)
    ensures
        r == system_type_from_lower(s@),
{
    if str_eq(s, "cpu") {
        Some(BaseSystemType::Cpu)
    } else if str_eq(s, "gpu") {
        Some(BaseSystemType::Gpu)
    } else if str_eq(s, "memory") {
        Some(BaseSystemType::Memory)
    } else if str_eq(s, "storage") {
        Some(BaseSystemType::Storage)
    } else if str_eq(s, "network") {
        Some(BaseSystemType::Network)
    } else if str_eq(s, "container") {
        Some(BaseSystemType::Container)
    } else if str_eq(s, "economic") {
        Some(BaseSystemType::Economic)
    } else if str_eq(s, "blockchain") {
        Some(BaseSystemType::Blockchain)
    } else if str_eq(s, "dns") {
        Some(BaseSystemType::Dns)
    } else if str_eq(s, "transmission") {
        Some(BaseSystemType::Transmission)
    } else if str_eq(s, "dashboard") {
        Some(BaseSystemType::Dashboard)
    } else if str_eq(s, "identity") {
        Some(BaseSystemType::Identity)
    } else if str_eq(s, "keyrotation") || str_eq(s, "key_rotation") {
        Some(BaseSystemType::KeyRotation)
    } else if str_eq(s, "invitation") {
        Some(BaseSystemType::Invitation)
    } else if str_eq(s, "message") {
        Some(BaseSystemType::Message)
    } else {
        None
    }
}

/// Message for a system type name that names no built-in type.
pub open spec fn unknown_system_type_message(lower: Seq<char>) -> Seq<char> {
    "unknown system type '"@ + lower + "', use 'application' category for custom types"@
}

/// Parse a system type name, ignoring case.
pub fn parse_system_type(name: &str) -> (r: Result<BaseSystemType, RpcError>)
    ensures
        match system_type_from_lower(unicode_lowercase(name@)) {
            Some(t) => r matches Ok(x) && x == t,
            None => r matches Err(e) && is_error(
                e,
                INVALID_PARAMS,
                unknown_system_type_message(unicode_lowercase(name@)),
            ),
        },
{
    let lower = to_lowercase(name);
    match system_type_from_lowercase(lower.as_str()) {
        Some(t) => Ok(t),
        None => {
            let msg = concat3(
                "unknown system type '",
                lower.as_str(),
                "', use 'application' category for custom types",
            );
            proof {
                reveal_strlit("unknown system type '");
                reveal_strlit("', use 'application' category for custom types");
            }
            Err(RpcError::new(INVALID_PARAMS, msg))
        },
    }
}

/// What an asset registers as.
#[derive(Debug)]
pub enum AssetCategoryPlan {
    System(BaseSystemType),
    Application { domain_name: String, domain_hash: Vec<u8> },
}

/// A checked `asset.register` call, ready for the chain.
#[derive(Debug)]
pub struct AssetRegisterPlan {
    pub category: AssetCategoryPlan,
    pub type_label: String,
    pub content: Vec<u8>,
    pub metadata: JsonValue,
}

/// The first 32 bytes of `b`, zero-padded to 32.
pub open spec fn pad32(b: Seq<u8>) -> Seq<u8> {
    Seq::new(32, |i: int| if i < b.len() { b[i] } else { 0u8 })
}

/// Model of a category plan.
pub enum CategoryModel {
    System(BaseSystemType),
    Application(Seq<char>, Seq<u8>),
}

pub open spec fn category_model(c: AssetCategoryPlan) -> CategoryModel {
    match c {
        AssetCategoryPlan::System(t) => CategoryModel::System(t),
        AssetCategoryPlan::Application { domain_name, domain_hash } => CategoryModel::Application(
            domain_name@,
            domain_hash@,
        ),
    }
}

/// Outcome of an `asset.register` call's checks on `params`: the error
/// message, or the category, type name, content bytes and metadata.
pub open spec fn asset_register_spec(params: JsonModel) -> Result<
    (CategoryModel, Seq<char>, Seq<u8>, JsonModel),
    Seq<char>,
> {
    match json_get_str(params, "category"@) {
        None => Err("category required (system|application)"@),
        Some(category) => match json_get_str(params, "content"@) {
            None => Err("content required (hex-encoded asset data)"@),
            Some(content) => {
                let type_label = match json_get_str(params, "type_name"@) {
                    Some(t) => t,
                    None => "Unknown"@,
                };
                let type_hash = match json_get_str(params, "type_hash"@) {
                    Some(t) => t,
                    None => ""@,
                };
                let metadata = match json_get(params, "metadata"@) {
                    Some(m) => m,
                    None => JsonModel::Object(Seq::empty()),
                };
                if !hex_decodable(encode_utf8(content)) {
                    Err("invalid hex content: "@ + hex_error_text(content))
                } else {
                    let bytes = hex_decoded(encode_utf8(content));
                    if category == "system"@ {
                        match system_type_from_lower(unicode_lowercase(type_label)) {
                            Some(t) => Ok((CategoryModel::System(t), type_label, bytes, metadata)),
                            None => Err(unknown_system_type_message(unicode_lowercase(type_label))),
                        }
                    } else if category == "application"@ {
                        if type_hash.len() == 0 {
                            Ok(
                                (
                                    CategoryModel::Application(
                                        type_label,
                                        blake3_digest(encode_utf8(type_label)),
                                    ),
                                    type_label,
                                    bytes,
                                    metadata,
                                ),
                            )
                        } else if !hex_decodable(encode_utf8(type_hash)) {
                            Err("invalid type_hash hex: "@ + hex_error_text(type_hash))
                        } else {
                            Ok(
                                (
                                    CategoryModel::Application(
                                        type_label,
                                        pad32(hex_decoded(encode_utf8(type_hash))),
                                    ),
                                    type_label,
                                    bytes,
                                    metadata,
                                ),
                            )
                        }
                    } else {
                        Err(
                            "unknown category '"@ + category
                                + "', expected 'system' or 'application'"@,
                        )
                    }
                }
            },
        },
    }
}

fn pad_to_32(b: &Vec<u8>) -> (r: Vec<u8>)
    ensures
        r@ == pad32(b@),
{
    let mut out: Vec<u8> = Vec::new();
    let mut i: usize = 0;
    while i < 32
        invariant
            i <= 32,
            out@.len() == i,
            forall|k: int| 0 <= k < i ==> out@[k] == (if k < b@.len() { b@[k] } else { 0u8 }),
        decreases 32 - i,
    {
        if i < b.len() {
            out.push(b[i]);
        } else {
            out.push(0);
        }
        i = i + 1;
    }
    assert(out@ =~= pad32(b@));
    out
}

fn invalid(msg: String) -> (r: RpcError)
    ensures
        is_error(r, INVALID_PARAMS, msg@),
{
    RpcError::new(INVALID_PARAMS, msg)
}

/// Check an `asset.register` call (see `asset_register_spec`); every
/// refusal is an `INVALID_PARAMS` error.
pub fn prepare_asset_register(params: &JsonValue) -> (r: Result<AssetRegisterPlan, RpcError>)
    ensures
        match asset_register_spec(params@) {
            Ok((c, t, b, m)) => r matches Ok(plan) && category_model(plan.category) == c
                && plan.type_label@ == t && plan.content@ == b && plan.metadata@ == m,
            Err(msg) => r matches Err(e) && is_error(e, INVALID_PARAMS, msg),
        },
{
    proof {
        reveal_strlit("category required (system|application)");
        reveal_strlit("content required (hex-encoded asset data)");
        reveal_strlit("Unknown");
        reveal_strlit("");
        reveal_strlit("invalid hex content: ");
        reveal_strlit("invalid type_hash hex: ");
        reveal_strlit("unknown category '");
        reveal_strlit("', expected 'system' or 'application'");
    }
    let category = match params.get_str("category") {
        Some(c) => c,
        None => {
            return Err(invalid(String::from_str("category required (system|application)")));
        },
    };
    let content = match params.get_str("content") {
        Some(c) => c,
        None => {
            return Err(invalid(String::from_str("content required (hex-encoded asset data)")));
        },
    };
    let type_label = match params.get_str("type_name") {
        Some(t) => t,
        None => "Unknown",
    };
    let type_hash = match params.get_str("type_hash") {
        Some(t) => t,
        None => "",
    };
    let metadata = match params.get("metadata") {
        Some(m) => m.duplicate(),
        None => JsonValue::empty_object(),
    };
    let content_bytes = match hex_decode(content) {
        Ok(b) => b,
        Err(e) => {
            return Err(invalid(concat2("invalid hex content: ", e.as_str())));
        },
    };
    let category_plan = if str_eq(category, "system") {
        match parse_system_type(type_label) {
            Ok(t) => AssetCategoryPlan::System(t),
            Err(e) => {
                return Err(e);
            },
        }
    } else if str_eq(category, "application") {
        let domain_hash = if type_hash.is_empty() {
            blake3_hash(type_label.as_bytes())
        } else {
            match hex_decode(type_hash) {
                Ok(b) => pad_to_32(&b),
                Err(e) => {
                    return Err(invalid(concat2("invalid type_hash hex: ", e.as_str())));
                },
            }
        };
        AssetCategoryPlan::Application { domain_name: String::from_str(type_label), domain_hash }
    } else {
        return Err(
            invalid(
                concat3("unknown category '", category, "', expected 'system' or 'application'"),
            ),
        );
    };
    Ok(
        AssetRegisterPlan {
            category: category_plan,
            type_label: String::from_str(type_label),
            content: content_bytes,
            metadata,
        },
    )
}

/// Reply for a registered asset: its content hash in hex as the id, the
/// block that holds it, and `"registered"`.
pub fn asset_registered_reply(content_hash: &[u8], block_index: u64) -> (r: JsonValue)
    ensures
        r@ == JsonModel::Object(
            seq![
                ("asset_id"@, JsonModel::Str(hex_text(content_hash@))),
                ("block_index"@, JsonModel::UInt(block_index)),
                ("status"@, JsonModel::Str("registered"@)),
            ],
        ),
{
    let mut entries: Vec<(String, JsonValue)> = Vec::new();
    proof {
        crate::json::lemma_entry_models_of_len(entries@);
        assert(crate::json::entry_models_of(entries@) =~= Seq::empty());
    }
    push_entry(&mut entries, "asset_id", JsonValue::Str(hex_encode(content_hash)));
    push_entry(&mut entries, "block_index", JsonValue::UInt(block_index));
    push_entry(&mut entries, "status", JsonValue::from_str_slice("registered"));
    proof {
        reveal_strlit("registered");
        assert(crate::json::entry_models_of(entries@) =~= seq![
            ("asset_id"@, JsonModel::Str(hex_text(content_hash@))),
            ("block_index"@, JsonModel::UInt(block_index)),
            ("status"@, JsonModel::Str("registered"@)),
        ]);
    }
    JsonValue::Object(entries)
}

/// Error for a registration the chain refused.
pub fn registration_failed(detail: &str) -> (r: RpcError)
    ensures
        is_error(r, INTERNAL_ERROR, "blockchain registration failed: "@ + detail@),
{
    proof {
        reveal_strlit("blockchain registration failed: ");
    }
    RpcError::new(INTERNAL_ERROR, concat2("blockchain registration failed: ", detail))
}

/// An asset registration found on the chain.
#[derive(Debug)]
pub struct AssetRow {
    pub block_index: u64,
    pub block_hash: String,
    pub content_hash: Vec<u8>,
    /// The category and scope as the chain shows them.
    pub category: String,
    pub scope: String,
}

pub open spec fn list_row_json(r: AssetRow) -> JsonModel {
    JsonModel::Object(
        seq![
            ("block_index"@, JsonModel::UInt(r.block_index)),
            ("content_hash"@, JsonModel::Str(hex_text(r.content_hash@))),
            ("category"@, JsonModel::Str(r.category@)),
            ("scope"@, JsonModel::Str(r.scope@)),
        ],
    )
}

/// Reply to `asset.list`: every registration on the chain, in chain
/// order, and their number.
pub fn asset_list_reply(rows: &Vec<AssetRow>) -> (r: JsonValue)
    ensures
        r@ == JsonModel::Object(
            seq![
                ("count"@, JsonModel::UInt(rows@.len() as u64)),
                ("assets"@, JsonModel::Array(rows@.map_values(|x: AssetRow| list_row_json(x)))),
            ],
        ),
{
    let mut items = new_items();
    let mut i: usize = 0;
    while i < rows.len()
        invariant
            i <= rows@.len(),
            models_of(items@) == rows@.take(i as int).map_values(|x: AssetRow| list_row_json(x)),
        decreases rows@.len() - i,
    {
        let ghost before = models_of(items@);
        let row = &rows[i];
        let mut e = new_entries();
        push_entry(&mut e, "block_index", JsonValue::UInt(row.block_index));
        push_entry(&mut e, "content_hash", JsonValue::Str(hex_encode(row.content_hash.as_slice())));
        push_entry(&mut e, "category", JsonValue::from_str_slice(row.category.as_str()));
        push_entry(&mut e, "scope", JsonValue::from_str_slice(row.scope.as_str()));
        assert(crate::json::entry_models_of(e@) =~= seq![
            ("block_index"@, JsonModel::UInt(row.block_index)),
            ("content_hash"@, JsonModel::Str(hex_text(row.content_hash@))),
            ("category"@, JsonModel::Str(row.category@)),
            ("scope"@, JsonModel::Str(row.scope@)),
        ]);
        push_item(&mut items, JsonValue::Object(e));
        assert(rows@.take(i + 1) =~= rows@.take(i as int).push(rows@[i as int]));
        assert(rows@.take(i + 1).map_values(|x: AssetRow| list_row_json(x)) =~= before.push(
            list_row_json(rows@[i as int]),
        ));
        i = i + 1;
    }
    assert(rows@.take(rows@.len() as int) =~= rows@);
    let mut entries = new_entries();
    push_entry(&mut entries, "count", JsonValue::UInt(rows.len() as u64));
    push_entry(&mut entries, "assets", JsonValue::Array(items));
    assert(crate::json::entry_models_of(entries@) =~= seq![
        ("count"@, JsonModel::UInt(rows@.len() as u64)),
        ("assets"@, JsonModel::Array(rows@.map_values(|x: AssetRow| list_row_json(x)))),
    ]);
    JsonValue::Object(entries)
}

/// The asset an `asset.info` call asks about (a piece of its hash in hex).
pub fn asset_info_id(params: &JsonValue) -> (r: Result<String, RpcError>)
    ensures
        match json_get_str(params@, "asset_id"@) {
            Some(a) => r matches Ok(s) && s@ == a,
            None => r matches Err(e) && is_error(e, INVALID_PARAMS, "missing 'asset_id' parameter"@),
        },
{
    proof {
        reveal_strlit("missing 'asset_id' parameter");
    }
    match params.get_str("asset_id") {
        Some(a) => Ok(String::from_str(a)),
        None => Err(invalid(String::from_str("missing 'asset_id' parameter"))),
    }
}

/// The registrations whose content hash, in hex, contains `id`, in order.
pub open spec fn matching_rows(rows: Seq<AssetRow>, id: Seq<char>) -> Seq<AssetRow>
    decreases rows.len(),
{
    if rows.len() == 0 {
        Seq::empty()
    } else {
        let rest = matching_rows(rows.drop_last(), id);
        if contains_sub(hex_text(rows.last().content_hash@), id) {
            rest.push(rows.last())
        } else {
            rest
        }
    }
}

pub open spec fn info_row_json(r: AssetRow) -> JsonModel {
    JsonModel::Object(
        seq![
            ("block_index"@, JsonModel::UInt(r.block_index)),
            ("block_hash"@, JsonModel::Str(r.block_hash@)),
            ("content_hash"@, JsonModel::Str(hex_text(r.content_hash@))),
            ("category"@, JsonModel::Str(r.category@)),
            ("scope"@, JsonModel::Str(r.scope@)),
        ],
    )
}

pub open spec fn asset_info_spec(asset_id: Seq<char>, rows: Seq<AssetRow>) -> JsonModel {
    let found = matching_rows(rows, asset_id);
    if found.len() == 0 {
        JsonModel::Object(
            seq![("asset_id"@, JsonModel::Str(asset_id)), ("found"@, JsonModel::Bool(false))],
        )
    } else {
        JsonModel::Object(
            seq![
                ("asset_id"@, JsonModel::Str(asset_id)),
                ("found"@, JsonModel::Bool(true)),
                ("entries"@, JsonModel::Array(found.map_values(|x: AssetRow| info_row_json(x)))),
            ],
        )
    }
}

/// Reply to `asset.info`: the registrations whose hash contains the id
/// asked for, or `found: false` when there is none.
pub fn asset_info_reply(asset_id: &str, rows: &Vec<AssetRow>) -> (r: JsonValue)
    ensures
        r@ == asset_info_spec(asset_id@, rows@),
{
    let mut items = new_items();
    let mut found: usize = 0;
    let mut i: usize = 0;
    proof {
        assert(rows@.take(0) =~= Seq::<AssetRow>::empty());
    }
    while i < rows.len()
        invariant
            i <= rows@.len(),
            found <= i,
            found == matching_rows(rows@.take(i as int), asset_id@).len(),
            models_of(items@) == matching_rows(rows@.take(i as int), asset_id@).map_values(
                |x: AssetRow| info_row_json(x),
            ),
        decreases rows@.len() - i,
    {
        let ghost before = models_of(items@);
        proof {
            assert(rows@.take(i + 1).drop_last() =~= rows@.take(i as int));
            assert(rows@.take(i + 1).last() == rows@[i as int]);
        }
        let row = &rows[i];
        let hx = hex_encode(row.content_hash.as_slice());
        if contains_str(hx.as_str(), asset_id) {
            let mut e = new_entries();
            push_entry(&mut e, "block_index", JsonValue::UInt(row.block_index));
            push_entry(&mut e, "block_hash", JsonValue::from_str_slice(row.block_hash.as_str()));
            push_entry(&mut e, "content_hash", JsonValue::Str(hx));
            push_entry(&mut e, "category", JsonValue::from_str_slice(row.category.as_str()));
            push_entry(&mut e, "scope", JsonValue::from_str_slice(row.scope.as_str()));
            assert(crate::json::entry_models_of(e@) =~= seq![
                ("block_index"@, JsonModel::UInt(row.block_index)),
                ("block_hash"@, JsonModel::Str(row.block_hash@)),
                ("content_hash"@, JsonModel::Str(hex_text(row.content_hash@))),
                ("category"@, JsonModel::Str(row.category@)),
                ("scope"@, JsonModel::Str(row.scope@)),
            ]);
            push_item(&mut items, JsonValue::Object(e));
            found = found + 1;
            assert(matching_rows(rows@.take(i + 1), asset_id@).map_values(
                |x: AssetRow| info_row_json(x),
            ) =~= before.push(info_row_json(rows@[i as int])));
        }
        i = i + 1;
    }
    assert(rows@.take(rows@.len() as int) =~= rows@);
    let mut entries = new_entries();
    push_entry(&mut entries, "asset_id", JsonValue::from_str_slice(asset_id));
    if found == 0 {
        push_entry(&mut entries, "found", JsonValue::Bool(false));
        assert(crate::json::entry_models_of(entries@) =~= seq![
            ("asset_id"@, JsonModel::Str(asset_id@)),
            ("found"@, JsonModel::Bool(false)),
        ]);
    } else {
        push_entry(&mut entries, "found", JsonValue::Bool(true));
        push_entry(&mut entries, "entries", JsonValue::Array(items));
        assert(crate::json::entry_models_of(entries@) =~= seq![
            ("asset_id"@, JsonModel::Str(asset_id@)),
            ("found"@, JsonModel::Bool(true)),
            (
                "entries"@,
                JsonModel::Array(
                    matching_rows(rows@, asset_id@).map_values(|x: AssetRow| info_row_json(x)),
                ),
            ),
        ]);
    }
    JsonValue::Object(entries)
}

} // verus!
