//! Chain queries: `blockchain.height`, `blockchain.block`,
//! `blockchain.validate` and `chain.lookup_cross_receipt`.

use vstd::prelude::*;
use crate::json::{JsonModel, JsonValue, json_get_str, json_get_u64, new_entries, push_entry};
use crate::protocol::{RpcError, INVALID_PARAMS, is_error};

verus! {

/// Reply to `blockchain.height`.
pub fn height_reply(height: u64) -> (r: JsonValue)
    ensures
        r@ == JsonModel::Object(seq![("height"@, JsonModel::UInt(height))]),
{
    let mut entries = new_entries();
    push_entry(&mut entries, "height", JsonValue::UInt(height));
    assert(crate::json::entry_models_of(entries@) =~= seq![("height"@, JsonModel::UInt(height))]);
    JsonValue::Object(entries)
}

/// The block a `blockchain.block` call asks for.
pub fn block_index_param(params: &JsonValue) -> (r: Result<u64, RpcError>)
    ensures
        match json_get_u64(params@, "index"@) {
            Some(i) => r == Ok::<u64, RpcError>(i),
            None => r matches Err(e) && is_error(
                e,
                INVALID_PARAMS,
                "missing or invalid 'index' parameter"@,
            ),
        },
{
    proof {
        reveal_strlit("missing or invalid 'index' parameter");
    }
    match params.get_u64("index") {
        Some(i) => Ok(i),
        None => Err(
            RpcError::new(INVALID_PARAMS, String::from_str("missing or invalid 'index' parameter")),
        ),
    }
}

/// A block as `blockchain.block` shows it.
#[derive(Debug)]
pub struct BlockSummary {
    pub index: u64,
    pub hash: String,
    pub previous_hash: String,
    pub asset_count: u64,
}

pub open spec fn block_reply_spec(requested: u64, block: Option<BlockSummary>) -> JsonModel {
    match block {
        Some(b) => JsonModel::Object(
            seq![
                ("index"@, JsonModel::UInt(b.index)),
                ("hash"@, JsonModel::Str(b.hash@)),
                ("previous_hash"@, JsonModel::Str(b.previous_hash@)),
                ("asset_count"@, JsonModel::UInt(b.asset_count)),
            ],
        ),
        None => JsonModel::Object(
            seq![
                ("index"@, JsonModel::UInt(requested)),
                ("error"@, JsonModel::Str("block not found"@)),
            ],
        ),
    }
}

/// Reply to `blockchain.block`: the block, or the requested index and
/// `"block not found"`.
pub fn block_reply(requested: u64, block: Option<&BlockSummary>) -> (r: JsonValue)
    ensures
        r@ == block_reply_spec(
            requested,
            match block {
                Some(b) => Some(*b),
                None => None,
            },
        ),
{
    proof {
        reveal_strlit("block not found");
    }
    let mut entries = new_entries();
    match block {
        Some(b) => {
            push_entry(&mut entries, "index", JsonValue::UInt(b.index));
            push_entry(&mut entries, "hash", JsonValue::from_str_slice(b.hash.as_str()));
            push_entry(
                &mut entries,
                "previous_hash",
                JsonValue::from_str_slice(b.previous_hash.as_str()),
            );
            push_entry(&mut entries, "asset_count", JsonValue::UInt(b.asset_count));
            assert(crate::json::entry_models_of(entries@) =~= seq![
                ("index"@, JsonModel::UInt(b.index)),
                ("hash"@, JsonModel::Str(b.hash@)),
                ("previous_hash"@, JsonModel::Str(b.previous_hash@)),
                ("asset_count"@, JsonModel::UInt(b.asset_count)),
            ]);
        },
        None => {
            push_entry(&mut entries, "index", JsonValue::UInt(requested));
            push_entry(&mut entries, "error", JsonValue::from_str_slice("block not found"));
            assert(crate::json::entry_models_of(entries@) =~= seq![
                ("index"@, JsonModel::UInt(requested)),
                ("error"@, JsonModel::Str("block not found"@)),
            ]);
        },
    }
    JsonValue::Object(entries)
}

/// Reply to `blockchain.validate`.
pub fn validate_reply(valid: bool, height: u64) -> (r: JsonValue)
    ensures
        r@ == JsonModel::Object(
            seq![("valid"@, JsonModel::Bool(valid)), ("height"@, JsonModel::UInt(height))],
        ),
{
    let mut entries = new_entries();
    push_entry(&mut entries, "valid", JsonValue::Bool(valid));
    push_entry(&mut entries, "height", JsonValue::UInt(height));
    assert(crate::json::entry_models_of(entries@) =~= seq![
        ("valid"@, JsonModel::Bool(valid)),
        ("height"@, JsonModel::UInt(height)),
    ]);
    JsonValue::Object(entries)
}

/// The transfer a `chain.lookup_cross_receipt` call asks about.
pub fn transfer_id_param(params: &JsonValue) -> (r: Result<String, RpcError>)
    ensures
        match json_get_str(params@, "transfer_id"@) {
            Some(t) => r matches Ok(s) && s@ == t,
            None => r matches Err(e) && is_error(
                e,
                INVALID_PARAMS,
                "missing or invalid 'transfer_id' parameter"@,
            ),
        },
{
    proof {
        reveal_strlit("missing or invalid 'transfer_id' parameter");
    }
    match params.get_str("transfer_id") {
        Some(t) => Ok(String::from_str(t)),
        None => Err(
            RpcError::new(
                INVALID_PARAMS,
                String::from_str("missing or invalid 'transfer_id' parameter"),
            ),
        ),
    }
}

/// A completed cross-chain transfer's receipt.
#[derive(Debug)]
pub struct CrossReceipt {
    pub transfer_id: String,
    pub source_chain_id: String,
    pub source_block_hash: String,
    pub target_chain_id: String,
    pub target_block_hash: String,
    pub completed_at: u64,
    pub asset_id: String,
}

pub open spec fn receipt_reply_spec(transfer_id: Seq<char>, receipt: Option<CrossReceipt>) -> JsonModel {
    match receipt {
        Some(c) => JsonModel::Object(
            seq![
                ("found"@, JsonModel::Bool(true)),
                ("transfer_id"@, JsonModel::Str(c.transfer_id@)),
                ("source_chain_id"@, JsonModel::Str(c.source_chain_id@)),
                ("source_block_hash"@, JsonModel::Str(c.source_block_hash@)),
                ("target_chain_id"@, JsonModel::Str(c.target_chain_id@)),
                ("target_block_hash"@, JsonModel::Str(c.target_block_hash@)),
                ("completed_at"@, JsonModel::UInt(c.completed_at)),
                ("asset_id"@, JsonModel::Str(c.asset_id@)),
            ],
        ),
        None => JsonModel::Object(
            seq![("found"@, JsonModel::Bool(false)), ("transfer_id"@, JsonModel::Str(transfer_id))],
        ),
    }
}

/// Reply to `chain.lookup_cross_receipt`: the receipt when one is known,
/// else `found: false` and the transfer asked about.
pub fn receipt_reply(transfer_id: &str, receipt: Option<&CrossReceipt>) -> (r: JsonValue)
    ensures
        r@ == receipt_reply_spec(
            transfer_id@,
            match receipt {
                Some(c) => Some(*c),
                None => None,
            },
        ),
{
    let mut entries = new_entries();
    match receipt {
        Some(c) => {
            push_entry(&mut entries, "found", JsonValue::Bool(true));
            push_entry(&mut entries, "transfer_id", JsonValue::from_str_slice(c.transfer_id.as_str()));
            push_entry(
                &mut entries,
                "source_chain_id",
                JsonValue::from_str_slice(c.source_chain_id.as_str()),
            );
            push_entry(
                &mut entries,
                "source_block_hash",
                JsonValue::from_str_slice(c.source_block_hash.as_str()),
            );
            push_entry(
                &mut entries,
                "target_chain_id",
                JsonValue::from_str_slice(c.target_chain_id.as_str()),
            );
            push_entry(
                &mut entries,
                "target_block_hash",
                JsonValue::from_str_slice(c.target_block_hash.as_str()),
            );
            push_entry(&mut entries, "completed_at", JsonValue::UInt(c.completed_at));
            push_entry(&mut entries, "asset_id", JsonValue::from_str_slice(c.asset_id.as_str()));
            assert(crate::json::entry_models_of(entries@) =~= seq![
                ("found"@, JsonModel::Bool(true)),
                ("transfer_id"@, JsonModel::Str(c.transfer_id@)),
                ("source_chain_id"@, JsonModel::Str(c.source_chain_id@)),
                ("source_block_hash"@, JsonModel::Str(c.source_block_hash@)),
                ("target_chain_id"@, JsonModel::Str(c.target_chain_id@)),
                ("target_block_hash"@, JsonModel::Str(c.target_block_hash@)),
                ("completed_at"@, JsonModel::UInt(c.completed_at)),
                ("asset_id"@, JsonModel::Str(c.asset_id@)),
            ]);
        },
        None => {
            push_entry(&mut entries, "found", JsonValue::Bool(false));
            push_entry(&mut entries, "transfer_id", JsonValue::from_str_slice(transfer_id));
            assert(crate::json::entry_models_of(entries@) =~= seq![
                ("found"@, JsonModel::Bool(false)),
                ("transfer_id"@, JsonModel::Str(transfer_id@)),
            ]);
        },
    }
    JsonValue::Object(entries)
}

} // verus!
