//! Storing a file (`store`): the request, the privacy the node's mode
//! asks for, the shard hashes, the on-chain registration's inputs and the
//! reply.

use vstd::prelude::*;
use vstd::utf8::encode_utf8;
use crate::codecs::{
    blake3_digest, blake3_hash, hex_decodable, hex_decode, hex_decoded, hex_encode, hex_text,
};
use crate::json::{
    JsonModel, JsonValue, json_get_str, models_of, new_entries, new_items, push_entry, push_item,
};
use crate::protocol::{RpcError, INTERNAL_ERROR, INVALID_PARAMS, is_error};
use crate::text::{concat2, concat3, contains_sub, contains_str, str_eq, utf8_bytes};

verus! {

/// The file a `store` call asks to ingest.
pub fn store_path(params: &JsonValue) -> (r: Result<String, RpcError>)
    ensures
        match json_get_str(params@, "path"@) {
            Some(p) => r matches Ok(s) && s@ == p,
            None => r matches Err(e) && is_error(e, INVALID_PARAMS, "missing 'path' parameter"@),
        },
{
    proof {
        reveal_strlit("missing 'path' parameter");
    }
    match params.get_str("path") {
        Some(p) => Ok(String::from_str(p)),
        None => Err(RpcError::new(INVALID_PARAMS, String::from_str("missing 'path' parameter"))),
    }
}

/// The steps of a store that can fail on their own.
#[derive(PartialEq, Eq, Structural, Clone, Copy, Debug)]
pub enum StoreStage {
    PipelineInit,
    Pipeline,
    Persist,
}

/// Code and message prefix of a failed step.
pub open spec fn stage_error_spec(stage: StoreStage) -> (i64, Seq<char>) {
    match stage {
        StoreStage::PipelineInit => (-32002i64, "pipeline init failed: "@),
        StoreStage::Pipeline => (-32003i64, "pipeline processing failed: "@),
        StoreStage::Persist => (-32004i64, "persist failed: "@),
    }
}

/// Error for a failed step: its code and its prefix before `detail`.
pub fn stage_error(stage: StoreStage, detail: &str) -> (r: RpcError)
    ensures
        is_error(r, stage_error_spec(stage).0, stage_error_spec(stage).1 + detail@),
{
    proof {
        reveal_strlit("pipeline init failed: ");
        reveal_strlit("pipeline processing failed: ");
        reveal_strlit("persist failed: ");
    }
    match stage {
        StoreStage::PipelineInit => RpcError::new(-32002, concat2("pipeline init failed: ", detail)),
        StoreStage::Pipeline => RpcError::new(-32003, concat2("pipeline processing failed: ", detail)),
        StoreStage::Persist => RpcError::new(-32004, concat2("persist failed: ", detail)),
    }
}

/// Error for a file that could not be read.
pub fn read_failed(path: &str, detail: &str) -> (r: RpcError)
    ensures
        is_error(r, -32001i64, "failed to read "@ + path@ + ": "@ + detail@),
{
    proof {
        reveal_strlit("failed to read ");
        reveal_strlit(": ");
    }
    let head = concat3("failed to read ", path, ": ");
    RpcError::new(-32001, concat2(head.as_str(), detail))
}

/// Whether the node's privacy mode, as text, stores assets in the clear:
/// an unbounded scope, or the names `Public` and `Anonymous`. Anything
/// else is private (encrypted).
pub open spec fn stores_in_clear_spec(mode: Seq<char>) -> bool {
    contains_sub(mode, "Unbounded"@) || mode == "Public"@ || mode == "Anonymous"@
}

/// Whether the node's privacy mode stores assets in the clear (see
/// `stores_in_clear_spec`).
pub fn stores_in_clear(mode: &str) -> (r: bool)
    ensures
        r == stores_in_clear_spec(mode@),
{
    proof {
        reveal_strlit("Unbounded");
        reveal_strlit("Public");
        reveal_strlit("Anonymous");
    }
    contains_str(mode, "Unbounded") || str_eq(mode, "Public") || str_eq(mode, "Anonymous")
}

/// Each shard's BLAKE3 hash, as bytes and in hex.
pub fn shard_hashes(shards: &Vec<Vec<u8>>) -> (r: Vec<(Vec<u8>, String)>)
    ensures
        r@.len() == shards@.len(),
        forall|i: int|
            0 <= i < shards@.len() ==> (#[trigger] r@[i]).0@ == blake3_digest(shards@[i]@) && r@[i].1@
                == hex_text(blake3_digest(shards@[i]@)),
{
    let mut out: Vec<(Vec<u8>, String)> = Vec::new();
    let mut i: usize = 0;
    while i < shards.len()
        invariant
            i <= shards@.len(),
            out@.len() == i,
            forall|k: int|
                0 <= k < i ==> (#[trigger] out@[k]).0@ == blake3_digest(shards@[k]@) && out@[k].1@
                    == hex_text(blake3_digest(shards@[k]@)),
        decreases shards@.len() - i,
    {
        let h = blake3_hash(shards[i].as_slice());
        let hx = hex_encode(h.as_slice());
        out.push((h, hx));
        i = i + 1;
    }
    out
}

/// The asset hash an asset id stands for: 32 bytes in hex.
pub fn asset_hash_from_id(asset_id: &str) -> (r: Result<Vec<u8>, RpcError>)
    ensures
        (hex_decodable(encode_utf8(asset_id@)) && hex_decoded(encode_utf8(asset_id@)).len() == 32)
            ==> (r matches Ok(v) && v@ == hex_decoded(encode_utf8(asset_id@))),
        !(hex_decodable(encode_utf8(asset_id@)) && hex_decoded(encode_utf8(asset_id@)).len() == 32)
            ==> (r matches Err(e) && is_error(
            e,
            INTERNAL_ERROR,
            "asset_id is not a 32-byte hex hash: "@ + asset_id@,
        )),
{
    proof {
        reveal_strlit("asset_id is not a 32-byte hex hash: ");
    }
    match hex_decode(asset_id) {
        Ok(v) => if v.len() == 32 {
            return Ok(v);
        },
        Err(_) => {},
    }
    Err(RpcError::new(INTERNAL_ERROR, concat2("asset_id is not a 32-byte hex hash: ", asset_id)))
}

/// The fingerprint of a node's private registry: its id read as 32 bytes
/// of hex; `None` (the global registry) when the id is not that.
pub fn node_private_fingerprint(node_id: &str) -> (r: Option<Vec<u8>>)
    ensures
        (hex_decodable(encode_utf8(node_id@)) && hex_decoded(encode_utf8(node_id@)).len() == 32)
            ==> (r matches Some(v) && v@ == hex_decoded(encode_utf8(node_id@))),
        !(hex_decodable(encode_utf8(node_id@)) && hex_decoded(encode_utf8(node_id@)).len() == 32)
            ==> r is None,
{
    match hex_decode(node_id) {
        Ok(v) => if v.len() == 32 {
            Some(v)
        } else {
            None
        },
        Err(_) => None,
    }
}

/// The configuration bytes a stored asset registers with.
pub fn store_config(asset_id: &str) -> (r: Vec<u8>)
    ensures
        r@ == encode_utf8("STORE:SHARDED:"@ + asset_id@),
{
    proof {
        reveal_strlit("STORE:SHARDED:");
    }
    let text = concat2("STORE:SHARDED:", asset_id);
    utf8_bytes(text.as_str())
}

/// Error when the chain refused the shard registration.
pub fn onchain_registration_failed(detail: &str) -> (r: RpcError)
    ensures
        is_error(r, INTERNAL_ERROR, "on-chain shard registration failed: "@ + detail@),
{
    proof {
        reveal_strlit("on-chain shard registration failed: ");
    }
    RpcError::new(INTERNAL_ERROR, concat2("on-chain shard registration failed: ", detail))
}

/// The distribution report when no transport runs: every shard stays local.
pub fn no_network_distribution(shard_count: u64) -> (r: JsonValue)
    ensures
        r@ == JsonModel::Object(
            seq![
                ("sent"@, JsonModel::UInt(0)),
                ("kept_local"@, JsonModel::UInt(shard_count)),
                ("reason"@, JsonModel::Str("no_network"@)),
            ],
        ),
{
    proof {
        reveal_strlit("no_network");
    }
    let mut entries = new_entries();
    push_entry(&mut entries, "sent", JsonValue::UInt(0));
    push_entry(&mut entries, "kept_local", JsonValue::UInt(shard_count));
    push_entry(&mut entries, "reason", JsonValue::from_str_slice("no_network"));
    assert(crate::json::entry_models_of(entries@) =~= seq![
        ("sent"@, JsonModel::UInt(0)),
        ("kept_local"@, JsonModel::UInt(shard_count)),
        ("reason"@, JsonModel::Str("no_network"@)),
    ]);
    JsonValue::Object(entries)
}

/// The distribution report after sending shards to peers.
pub fn distribution_report(sent: u64, kept_local: u64, failed: u64) -> (r: JsonValue)
    ensures
        r@ == JsonModel::Object(
            seq![
                ("sent"@, JsonModel::UInt(sent)),
                ("kept_local"@, JsonModel::UInt(kept_local)),
                ("failed"@, JsonModel::UInt(failed)),
            ],
        ),
{
    let mut entries = new_entries();
    push_entry(&mut entries, "sent", JsonValue::UInt(sent));
    push_entry(&mut entries, "kept_local", JsonValue::UInt(kept_local));
    push_entry(&mut entries, "failed", JsonValue::UInt(failed));
    assert(crate::json::entry_models_of(entries@) =~= seq![
        ("sent"@, JsonModel::UInt(sent)),
        ("kept_local"@, JsonModel::UInt(kept_local)),
        ("failed"@, JsonModel::UInt(failed)),
    ]);
    JsonValue::Object(entries)
}

/// What a finished store reports.
#[derive(Debug)]
pub struct StoreOutcome {
    pub asset_id: String,
    pub shard_count: u64,
    pub original_size: u64,
    pub final_size: u64,
    pub registered_block: u64,
    pub shard_hashes: Vec<String>,
}

/// Reply to `store`: the asset, its shards, sizes, the block that
/// registers it and how it was distributed.
pub fn store_reply(o: &StoreOutcome, distributed: JsonValue) -> (r: JsonValue)
    ensures
        r@ == JsonModel::Object(
            seq![
                ("asset_id"@, JsonModel::Str(o.asset_id@)),
                ("shard_count"@, JsonModel::UInt(o.shard_count)),
                ("original_size"@, JsonModel::UInt(o.original_size)),
                ("final_size"@, JsonModel::UInt(o.final_size)),
                ("registered_block"@, JsonModel::UInt(o.registered_block)),
                (
                    "shard_hashes"@,
                    JsonModel::Array(o.shard_hashes@.map_values(|h: String| JsonModel::Str(h@))),
                ),
                ("distributed"@, distributed@),
            ],
        ),
{
    let mut items = new_items();
    let mut i: usize = 0;
    while i < o.shard_hashes.len()
        invariant
            i <= o.shard_hashes@.len(),
            models_of(items@) == o.shard_hashes@.take(i as int).map_values(
                |h: String| JsonModel::Str(h@),
            ),
        decreases o.shard_hashes@.len() - i,
    {
        let ghost before = models_of(items@);
        push_item(&mut items, JsonValue::from_str_slice(o.shard_hashes[i].as_str()));
        assert(o.shard_hashes@.take(i + 1) =~= o.shard_hashes@.take(i as int).push(
            o.shard_hashes@[i as int],
        ));
        assert(o.shard_hashes@.take(i + 1).map_values(|h: String| JsonModel::Str(h@)) =~= before.push(
            JsonModel::Str(o.shard_hashes@[i as int]@),
        ));
        i = i + 1;
    }
    assert(o.shard_hashes@.take(o.shard_hashes@.len() as int) =~= o.shard_hashes@);
    let ghost d = distributed@;
    let mut entries = new_entries();
    push_entry(&mut entries, "asset_id", JsonValue::from_str_slice(o.asset_id.as_str()));
    push_entry(&mut entries, "shard_count", JsonValue::UInt(o.shard_count));
    push_entry(&mut entries, "original_size", JsonValue::UInt(o.original_size));
    push_entry(&mut entries, "final_size", JsonValue::UInt(o.final_size));
    push_entry(&mut entries, "registered_block", JsonValue::UInt(o.registered_block));
    push_entry(&mut entries, "shard_hashes", JsonValue::Array(items));
    push_entry(&mut entries, "distributed", distributed);
    assert(crate::json::entry_models_of(entries@) =~= seq![
        ("asset_id"@, JsonModel::Str(o.asset_id@)),
        ("shard_count"@, JsonModel::UInt(o.shard_count)),
        ("original_size"@, JsonModel::UInt(o.original_size)),
        ("final_size"@, JsonModel::UInt(o.final_size)),
        ("registered_block"@, JsonModel::UInt(o.registered_block)),
        ("shard_hashes"@, JsonModel::Array(o.shard_hashes@.map_values(|h: String| JsonModel::Str(h@)))),
        ("distributed"@, d),
    ]);
    JsonValue::Object(entries)
}

} // verus!
