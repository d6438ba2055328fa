//! Catalog dependency lookup (`catalog.dependencies`): which type is
//! asked about, and the replies. Resolving names and dependency graphs is
//! the registry's.

use vstd::prelude::*;
use vstd::utf8::encode_utf8;
use crate::catalog::{byte_len, hash_length_message, parse_content_hash_hex};
use crate::codecs::{hex_decodable, hex_decoded, hex_encode, hex_error_text, hex_text};
use crate::json::{
    JsonModel, JsonValue, json_get_str, models_of, new_entries, new_items, push_entry, push_item,
};
use crate::protocol::{RpcError, INTERNAL_ERROR, INVALID_PARAMS, is_error};
use crate::text::concat2;

verus! {

/// Outcome of reading a 64-digit hex type hash.
pub open spec fn type_hash_spec(h: Seq<char>) -> Result<Seq<u8>, Seq<char>> {
    if (encode_utf8(h).len() as usize) != 64 {
        Err(hash_length_message((encode_utf8(h).len() as usize) as nat))
    } else if !hex_decodable(encode_utf8(h)) {
        Err("invalid hex in type_hash: "@ + hex_error_text(h))
    } else {
        Ok(hex_decoded(encode_utf8(h)))
    }
}

/// How a `catalog.dependencies` call names the type.
#[derive(Debug)]
pub enum DependencyKey {
    /// By its hash.
    Hash(Vec<u8>),
    /// By name, to be looked up first.
    Name(String),
}

/// Outcome of reading the type a `catalog.dependencies` call names:
/// `type_hash` wins over `type_name`; one of them is required.
pub open spec fn dependency_key_spec(params: JsonModel) -> Result<Result<Seq<u8>, Seq<char>>, Seq<char>> {
    match json_get_str(params, "type_hash"@) {
        Some(h) => match type_hash_spec(h) {
            Ok(bytes) => Ok(Ok(bytes)),
            Err(m) => Err(m),
        },
        None => match json_get_str(params, "type_name"@) {
            Some(n) => Ok(Err(n)),
            None => Err("either 'type_hash' (hex) or 'type_name' (string) required"@),
        },
    }
}

/// Read the type a `catalog.dependencies` call names (see
/// `dependency_key_spec`: `Ok(Ok(hash))` for a hash, `Ok(Err(name))` for
/// a name).
pub fn dependency_key(params: &JsonValue) -> (r: Result<DependencyKey, RpcError>)
    ensures
        match dependency_key_spec(params@) {
            Ok(Ok(h)) => r matches Ok(DependencyKey::Hash(v)) && v@ == h,
            Ok(Err(n)) => r matches Ok(DependencyKey::Name(s)) && s@ == n,
            Err(m) => r matches Err(e) && is_error(e, INVALID_PARAMS, m),
        },
{
    proof {
        reveal_strlit("either 'type_hash' (hex) or 'type_name' (string) required");
    }
    match params.get_str("type_hash") {
        Some(h) => {
            proof {
                assert(byte_len(h) == (encode_utf8(h@).len() as usize));
            }
            match parse_content_hash_hex(h) {
                Ok(v) => Ok(DependencyKey::Hash(v)),
                Err(e) => Err(e),
            }
        },
        None => match params.get_str("type_name") {
            Some(n) => Ok(DependencyKey::Name(String::from_str(n))),
            None => Err(
                RpcError::new(
                    INVALID_PARAMS,
                    String::from_str("either 'type_hash' (hex) or 'type_name' (string) required"),
                ),
            ),
        },
    }
}

/// The empty dependency reply, with a note when there is one.
pub open spec fn empty_dependencies_spec(status: Seq<char>, note: Option<Seq<char>>) -> JsonModel {
    let base = seq![
        ("status"@, JsonModel::Str(status)),
        ("direct_deps"@, JsonModel::Array(Seq::empty())),
        ("transitive_deps"@, JsonModel::Array(Seq::empty())),
        ("missing"@, JsonModel::Array(Seq::empty())),
        ("total"@, JsonModel::UInt(0)),
    ];
    match note {
        Some(n) => JsonModel::Object(base.push(("note"@, JsonModel::Str(n)))),
        None => JsonModel::Object(base),
    }
}

fn empty_dependencies(status: &str, note: Option<String>) -> (r: JsonValue)
    ensures
        r@ == empty_dependencies_spec(
            status@,
            match note {
                Some(n) => Some(n@),
                None => None,
            },
        ),
{
    let mut entries = new_entries();
    push_entry(&mut entries, "status", JsonValue::from_str_slice(status));
    push_entry(&mut entries, "direct_deps", JsonValue::Array(new_items()));
    push_entry(&mut entries, "transitive_deps", JsonValue::Array(new_items()));
    push_entry(&mut entries, "missing", JsonValue::Array(new_items()));
    push_entry(&mut entries, "total", JsonValue::UInt(0));
    let ghost base = seq![
        ("status"@, JsonModel::Str(status@)),
        ("direct_deps"@, JsonModel::Array(Seq::<JsonModel>::empty())),
        ("transitive_deps"@, JsonModel::Array(Seq::<JsonModel>::empty())),
        ("missing"@, JsonModel::Array(Seq::<JsonModel>::empty())),
        ("total"@, JsonModel::UInt(0)),
    ];
    assert(crate::json::entry_models_of(entries@) =~= base);
    match note {
        Some(n) => {
            let ghost nv = n@;
            push_entry(&mut entries, "note", JsonValue::Str(n));
            assert(crate::json::entry_models_of(entries@) =~= base.push(("note"@, JsonModel::Str(nv))));
        },
        None => {},
    }
    JsonValue::Object(entries)
}

/// Reply when no catalog registry is wired: nothing, never an invented
/// graph.
pub fn dependencies_not_wired_reply() -> (r: JsonValue)
    ensures
        r@ == empty_dependencies_spec("alpha"@, Some("catalog registry not wired"@)),
{
    proof {
        reveal_strlit("alpha");
        reveal_strlit("catalog registry not wired");
    }
    empty_dependencies("alpha", Some(String::from_str("catalog registry not wired")))
}

/// Reply when the named type is unknown: an honest empty graph.
pub fn type_not_found_reply(name: &str) -> (r: JsonValue)
    ensures
        r@ == empty_dependencies_spec("ok"@, Some("type not found: "@ + name@)),
{
    proof {
        reveal_strlit("ok");
        reveal_strlit("type not found: ");
    }
    empty_dependencies("ok", Some(concat2("type not found: ", name)))
}

/// Error when looking a name up failed.
pub fn lookup_failed(detail: &str) -> (r: RpcError)
    ensures
        is_error(r, INTERNAL_ERROR, "lookup failed: "@ + detail@),
{
    proof {
        reveal_strlit("lookup failed: ");
    }
    RpcError::new(INTERNAL_ERROR, concat2("lookup failed: ", detail))
}

/// Error when resolving the dependency graph failed.
pub fn resolve_failed(detail: &str) -> (r: RpcError)
    ensures
        is_error(r, INTERNAL_ERROR, "resolve failed: "@ + detail@),
{
    proof {
        reveal_strlit("resolve failed: ");
    }
    RpcError::new(INTERNAL_ERROR, concat2("resolve failed: ", detail))
}

/// A type in a dependency graph.
#[derive(Debug)]
pub struct DependencyNode {
    pub type_hash: Vec<u8>,
    pub name: String,
    pub version: String,
    pub depth: u64,
}

pub open spec fn node_json(n: DependencyNode) -> JsonModel {
    JsonModel::Object(
        seq![
            ("type_hash"@, JsonModel::Str(hex_text(n.type_hash@))),
            ("name"@, JsonModel::Str(n.name@)),
            ("version"@, JsonModel::Str(n.version@)),
            ("depth"@, JsonModel::UInt(n.depth)),
        ],
    )
}

fn nodes_json(nodes: &Vec<DependencyNode>) -> (r: JsonValue)
    ensures
        r@ == JsonModel::Array(nodes@.map_values(|n: DependencyNode| node_json(n))),
{
    let mut items = new_items();
    let mut i: usize = 0;
    while i < nodes.len()
        invariant
            i <= nodes@.len(),
            models_of(items@) == nodes@.take(i as int).map_values(|n: DependencyNode| node_json(n)),
        decreases nodes@.len() - i,
    {
        let ghost before = models_of(items@);
        let n = &nodes[i];
        let mut e = new_entries();
        push_entry(&mut e, "type_hash", JsonValue::Str(hex_encode(n.type_hash.as_slice())));
        push_entry(&mut e, "name", JsonValue::from_str_slice(n.name.as_str()));
        push_entry(&mut e, "version", JsonValue::from_str_slice(n.version.as_str()));
        push_entry(&mut e, "depth", JsonValue::UInt(n.depth));
        assert(crate::json::entry_models_of(e@) =~= seq![
            ("type_hash"@, JsonModel::Str(hex_text(n.type_hash@))),
            ("name"@, JsonModel::Str(n.name@)),
            ("version"@, JsonModel::Str(n.version@)),
            ("depth"@, JsonModel::UInt(n.depth)),
        ]);
        push_item(&mut items, JsonValue::Object(e));
        assert(nodes@.take(i + 1) =~= nodes@.take(i as int).push(nodes@[i as int]));
        assert(nodes@.take(i + 1).map_values(|n: DependencyNode| node_json(n)) =~= before.push(
            node_json(nodes@[i as int]),
        ));
        i = i + 1;
    }
    assert(nodes@.take(nodes@.len() as int) =~= nodes@);
    JsonValue::Array(items)
}

fn hashes_json(hashes: &Vec<Vec<u8>>) -> (r: JsonValue)
    ensures
        r@ == JsonModel::Array(hashes@.map_values(|h: Vec<u8>| JsonModel::Str(hex_text(h@)))),
{
    let mut items = new_items();
    let mut i: usize = 0;
    while i < hashes.len()
        invariant
            i <= hashes@.len(),
            models_of(items@) == hashes@.take(i as int).map_values(
                |h: Vec<u8>| JsonModel::Str(hex_text(h@)),
            ),
        decreases hashes@.len() - i,
    {
        let ghost before = models_of(items@);
        push_item(&mut items, JsonValue::Str(hex_encode(hashes[i].as_slice())));
        assert(hashes@.take(i + 1) =~= hashes@.take(i as int).push(hashes@[i as int]));
        assert(hashes@.take(i + 1).map_values(|h: Vec<u8>| JsonModel::Str(hex_text(h@))) =~= before.push(
            JsonModel::Str(hex_text(hashes@[i as int]@)),
        ));
        i = i + 1;
    }
    assert(hashes@.take(hashes@.len() as int) =~= hashes@);
    JsonValue::Array(items)
}

/// Reply with a resolved graph: the type, its direct and transitive
/// dependencies, the hashes no registry knows, and how many dependencies
/// were found.
pub fn dependencies_reply(
    type_hash: &[u8],
    direct: &Vec<DependencyNode>,
    transitive: &Vec<DependencyNode>,
    missing: &Vec<Vec<u8>>,
) -> (r: JsonValue)
    requires
        direct@.len() + transitive@.len() <= u64::MAX,
    ensures
        r@ == JsonModel::Object(
            seq![
                ("status"@, JsonModel::Str("ok"@)),
                ("type_hash"@, JsonModel::Str(hex_text(type_hash@))),
                (
                    "direct_deps"@,
                    JsonModel::Array(direct@.map_values(|n: DependencyNode| node_json(n))),
                ),
                (
                    "transitive_deps"@,
                    JsonModel::Array(transitive@.map_values(|n: DependencyNode| node_json(n))),
                ),
                (
                    "missing"@,
                    JsonModel::Array(missing@.map_values(|h: Vec<u8>| JsonModel::Str(hex_text(h@)))),
                ),
                ("total"@, JsonModel::UInt((direct@.len() + transitive@.len()) as u64)),
            ],
        ),
{
    proof {
        reveal_strlit("ok");
    }
    let total = direct.len() as u64 + transitive.len() as u64;
    let mut entries = new_entries();
    push_entry(&mut entries, "status", JsonValue::from_str_slice("ok"));
    push_entry(&mut entries, "type_hash", JsonValue::Str(hex_encode(type_hash)));
    push_entry(&mut entries, "direct_deps", nodes_json(direct));
    push_entry(&mut entries, "transitive_deps", nodes_json(transitive));
    push_entry(&mut entries, "missing", hashes_json(missing));
    push_entry(&mut entries, "total", JsonValue::UInt(total));
    assert(crate::json::entry_models_of(entries@) =~= seq![
        ("status"@, JsonModel::Str("ok"@)),
        ("type_hash"@, JsonModel::Str(hex_text(type_hash@))),
        ("direct_deps"@, JsonModel::Array(direct@.map_values(|n: DependencyNode| node_json(n)))),
        (
            "transitive_deps"@,
            JsonModel::Array(transitive@.map_values(|n: DependencyNode| node_json(n))),
        ),
        (
            "missing"@,
            JsonModel::Array(missing@.map_values(|h: Vec<u8>| JsonModel::Str(hex_text(h@)))),
        ),
        ("total"@, JsonModel::UInt((direct@.len() + transitive@.len()) as u64)),
    ]);
    JsonValue::Object(entries)
}

} // verus!
