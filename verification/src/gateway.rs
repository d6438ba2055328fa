//! Gateway calls: blockchain scopes and the checks on a transfer request.

use vstd::prelude::*;
use crate::json::{JsonModel, JsonValue, json_get, json_get_str, new_entries, new_items, push_entry};
use crate::protocol::{RpcError, INTERNAL_ERROR, INVALID_PARAMS, is_error};
use crate::text::{concat2, concat3, str_eq, to_lowercase, unicode_lowercase};

verus! {

/// Where a blockchain lives.
#[derive(PartialEq, Eq, Structural, Clone, Copy, Debug)]
pub enum BlockchainScope {
    Device,
    Network,
}

/// Message for an unknown scope name (already lower-cased).
pub open spec fn invalid_scope_message(lower: Seq<char>) -> Seq<char> {
    "invalid scope '"@ + lower + "': expected 'device' or 'network'"@
}

/// Parse a scope name, ignoring case.
pub fn parse_scope(s: &str) -> (r: Result<BlockchainScope, RpcError>)
    ensures
        unicode_lowercase(s@) == "device"@ ==> (r matches Ok(x) && x == BlockchainScope::Device),
        unicode_lowercase(s@) == "network"@ ==> (r matches Ok(x) && x == BlockchainScope::Network),
        unicode_lowercase(s@) != "device"@ && unicode_lowercase(s@) != "network"@ ==> (r matches Err(
            e,
        ) && is_error(e, INVALID_PARAMS, invalid_scope_message(unicode_lowercase(s@)))),
{
    proof {
        reveal_strlit("device");
        reveal_strlit("network");
        assert("network"@.len() != "device"@.len());
    }
    let lower = to_lowercase(s);
    if str_eq(lower.as_str(), "device") {
        Ok(BlockchainScope::Device)
    } else if str_eq(lower.as_str(), "network") {
        Ok(BlockchainScope::Network)
    } else {
        proof {
            reveal_strlit("invalid scope '");
            reveal_strlit("': expected 'device' or 'network'");
        }
        Err(
            RpcError::new(
                INVALID_PARAMS,
                concat3("invalid scope '", lower.as_str(), "': expected 'device' or 'network'"),
            ),
        )
    }
}

/// A checked `gateway.initiate_transfer` call.
#[derive(Debug)]
pub struct TransferRequest {
    pub asset_id: String,
    pub target_chain_id: String,
    pub target_peer: String,
    pub target_scope: BlockchainScope,
    /// The `shard_manifest` array, when one was given.
    pub shard_manifest: Option<JsonValue>,
}

/// The scope a transfer targets: `device` (or `Device`) picks the device
/// chain; anything else, or nothing, the network chain.
pub open spec fn transfer_scope_spec(params: JsonModel) -> BlockchainScope {
    match json_get_str(params, "target_scope"@) {
        Some(s) => if s == "device"@ || s == "Device"@ {
            BlockchainScope::Device
        } else {
            BlockchainScope::Network
        },
        None => BlockchainScope::Network,
    }
}

/// The checks on a transfer call, in order.
pub open spec fn transfer_spec(params: JsonModel, coordinator_configured: bool) -> Result<
    (Seq<char>, Seq<char>, Seq<char>, BlockchainScope, Option<JsonModel>),
    (i64, Seq<char>),
> {
    if !coordinator_configured {
        Err((INTERNAL_ERROR, "transfer coordinator not configured"@))
    } else {
        match json_get_str(params, "asset_id"@) {
            None => Err((INVALID_PARAMS, "missing 'asset_id' parameter"@)),
            Some(asset) => match json_get_str(params, "target_chain_id"@) {
                None => Err((INVALID_PARAMS, "missing 'target_chain_id' parameter"@)),
                Some(chain) => match json_get_str(params, "target_peer"@) {
                    None => Err((INVALID_PARAMS, "missing 'target_peer' (cert fingerprint) parameter"@)),
                    Some(peer) => Ok(
                        (
                            asset,
                            chain,
                            peer,
                            transfer_scope_spec(params),
                            match json_get(params, "shard_manifest"@) {
                                Some(m) => if m is Array {
                                    Some(m)
                                } else {
                                    None
                                },
                                None => None,
                            },
                        ),
                    ),
                },
            },
        }
    }
}

fn err(code: i64, msg: &str) -> (r: RpcError)
    ensures
        is_error(r, code, msg@),
{
    RpcError::new(code, String::from_str(msg))
}

/// Check a transfer call (see `transfer_spec`).
pub fn prepare_transfer(params: &JsonValue, coordinator_configured: bool) -> (r: Result<TransferRequest, RpcError>)
    ensures
        match transfer_spec(params@, coordinator_configured) {
            Ok((a, c, p, s, m)) => r matches Ok(t) && t.asset_id@ == a && t.target_chain_id@ == c
                && t.target_peer@ == p && t.target_scope == s && match t.shard_manifest {
                Some(v) => m == Some(v@),
                None => m is None,
            },
            Err((code, msg)) => r matches Err(e) && is_error(e, code, msg),
        },
{
    proof {
        reveal_strlit("transfer coordinator not configured");
        reveal_strlit("missing 'asset_id' parameter");
        reveal_strlit("missing 'target_chain_id' parameter");
        reveal_strlit("missing 'target_peer' (cert fingerprint) parameter");
    }
    if !coordinator_configured {
        return Err(err(INTERNAL_ERROR, "transfer coordinator not configured"));
    }
    let asset = match params.get_str("asset_id") {
        Some(a) => a,
        None => {
            return Err(err(INVALID_PARAMS, "missing 'asset_id' parameter"));
        },
    };
    let chain = match params.get_str("target_chain_id") {
        Some(c) => c,
        None => {
            return Err(err(INVALID_PARAMS, "missing 'target_chain_id' parameter"));
        },
    };
    let peer = match params.get_str("target_peer") {
        Some(p) => p,
        None => {
            return Err(err(INVALID_PARAMS, "missing 'target_peer' (cert fingerprint) parameter"));
        },
    };
    let scope = match params.get_str("target_scope") {
        Some(s) => if str_eq(s, "device") || str_eq(s, "Device") {
            BlockchainScope::Device
        } else {
            BlockchainScope::Network
        },
        None => BlockchainScope::Network,
    };
    let manifest = match params.get("shard_manifest") {
        Some(m) => match m {
            JsonValue::Array(_) => Some(m.duplicate()),
            _ => None,
        },
        None => None,
    };
    Ok(
        TransferRequest {
            asset_id: String::from_str(asset),
            target_chain_id: String::from_str(chain),
            target_peer: String::from_str(peer),
            target_scope: scope,
            shard_manifest: manifest,
        },
    )
}

/// Error for a manifest that does not describe shards.
pub fn invalid_manifest(detail: &str) -> (r: RpcError)
    ensures
        is_error(r, INVALID_PARAMS, "invalid shard_manifest: "@ + detail@),
{
    proof {
        reveal_strlit("invalid shard_manifest: ");
    }
    RpcError::new(INVALID_PARAMS, concat2("invalid shard_manifest: ", detail))
}

/// Error for a state proof that could not be made.
pub fn state_proof_failed(detail: &str) -> (r: RpcError)
    ensures
        is_error(r, INTERNAL_ERROR, "state proof generation failed: "@ + detail@),
{
    proof {
        reveal_strlit("state proof generation failed: ");
    }
    RpcError::new(INTERNAL_ERROR, concat2("state proof generation failed: ", detail))
}

/// Error for a transfer the coordinator refused.
pub fn transfer_failed(detail: &str) -> (r: RpcError)
    ensures
        is_error(r, INTERNAL_ERROR, "transfer failed: "@ + detail@),
{
    proof {
        reveal_strlit("transfer failed: ");
    }
    RpcError::new(INTERNAL_ERROR, concat2("transfer failed: ", detail))
}

/// The scope a lower-cased name stands for.
pub open spec fn scope_named(lower: Seq<char>) -> Option<BlockchainScope> {
    if lower == "device"@ {
        Some(BlockchainScope::Device)
    } else if lower == "network"@ {
        Some(BlockchainScope::Network)
    } else {
        None
    }
}

/// Outcome of the checks on a `gateway.transfer` call: the error message,
/// or the asset and the two scopes. All three parameters are required;
/// each scope name is read ignoring case, the source first.
pub open spec fn scope_transfer_spec(params: JsonModel) -> Result<
    (Seq<char>, BlockchainScope, BlockchainScope),
    Seq<char>,
> {
    match json_get_str(params, "asset_id"@) {
        None => Err("missing or invalid 'asset_id' parameter"@),
        Some(asset) => match json_get_str(params, "source_scope"@) {
            None => Err("missing or invalid 'source_scope' parameter"@),
            Some(src) => match json_get_str(params, "target_scope"@) {
                None => Err("missing or invalid 'target_scope' parameter"@),
                Some(dst) => match scope_named(unicode_lowercase(src)) {
                    None => Err(invalid_scope_message(unicode_lowercase(src))),
                    Some(from) => match scope_named(unicode_lowercase(dst)) {
                        None => Err(invalid_scope_message(unicode_lowercase(dst))),
                        Some(to) => Ok((asset, from, to)),
                    },
                },
            },
        },
    }
}

/// Check a `gateway.transfer` call (see `scope_transfer_spec`).
pub fn scope_transfer_request(params: &JsonValue) -> (r: Result<
    (String, BlockchainScope, BlockchainScope),
    RpcError,
>)
    ensures
        match scope_transfer_spec(params@) {
            Ok((asset, from, to)) => r matches Ok(t) && t.0@ == asset && t.1 == from && t.2 == to,
            Err(msg) => r matches Err(e) && is_error(e, INVALID_PARAMS, msg),
        },
{
    proof {
        reveal_strlit("missing or invalid 'asset_id' parameter");
        reveal_strlit("missing or invalid 'source_scope' parameter");
        reveal_strlit("missing or invalid 'target_scope' parameter");
        reveal_strlit("device");
        reveal_strlit("network");
        assert("network"@.len() != "device"@.len());
    }
    let asset = match params.get_str("asset_id") {
        Some(a) => a,
        None => {
            return Err(err(INVALID_PARAMS, "missing or invalid 'asset_id' parameter"));
        },
    };
    let src = match params.get_str("source_scope") {
        Some(a) => a,
        None => {
            return Err(err(INVALID_PARAMS, "missing or invalid 'source_scope' parameter"));
        },
    };
    let dst = match params.get_str("target_scope") {
        Some(a) => a,
        None => {
            return Err(err(INVALID_PARAMS, "missing or invalid 'target_scope' parameter"));
        },
    };
    let from = match parse_scope(src) {
        Ok(x) => x,
        Err(e) => {
            return Err(e);
        },
    };
    let to = match parse_scope(dst) {
        Ok(x) => x,
        Err(e) => {
            return Err(e);
        },
    };
    Ok((String::from_str(asset), from, to))
}

/// Reply for a transfer the gateway accepted.
pub fn transfer_pending_reply(transfer_id: &str) -> (r: JsonValue)
    ensures
        r@ == JsonModel::Object(
            seq![("transfer_id"@, JsonModel::Str(transfer_id@)), ("status"@, JsonModel::Str("pending"@))],
        ),
{
    proof {
        reveal_strlit("pending");
    }
    let mut entries = new_entries();
    push_entry(&mut entries, "transfer_id", JsonValue::from_str_slice(transfer_id));
    push_entry(&mut entries, "status", JsonValue::from_str_slice("pending"));
    assert(crate::json::entry_models_of(entries@) =~= seq![
        ("transfer_id"@, JsonModel::Str(transfer_id@)),
        ("status"@, JsonModel::Str("pending"@)),
    ]);
    JsonValue::Object(entries)
}

/// `gateway.status`: gateway state does not outlive a request yet, so every
/// transfer asked about is reported as not found.
pub fn gateway_status(params: &JsonValue) -> (r: Result<JsonValue, RpcError>)
    ensures
        match json_get_str(params@, "transfer_id"@) {
            None => r matches Err(e) && is_error(
                e,
                INVALID_PARAMS,
                "missing or invalid 'transfer_id' parameter"@,
            ),
            Some(id) => r matches Ok(v) && v@ == JsonModel::Object(
                seq![
                    ("transfer_id"@, JsonModel::Str(id)),
                    ("status"@, JsonModel::Str("not_found"@)),
                    (
                        "message"@,
                        JsonModel::Str("transfer not found (gateway state is ephemeral in alpha)"@),
                    ),
                ],
            ),
        },
{
    proof {
        reveal_strlit("missing or invalid 'transfer_id' parameter");
        reveal_strlit("not_found");
        reveal_strlit("transfer not found (gateway state is ephemeral in alpha)");
    }
    let id = match params.get_str("transfer_id") {
        Some(t) => t,
        None => {
            return Err(err(INVALID_PARAMS, "missing or invalid 'transfer_id' parameter"));
        },
    };
    let mut entries = new_entries();
    push_entry(&mut entries, "transfer_id", JsonValue::from_str_slice(id));
    push_entry(&mut entries, "status", JsonValue::from_str_slice("not_found"));
    push_entry(
        &mut entries,
        "message",
        JsonValue::from_str_slice("transfer not found (gateway state is ephemeral in alpha)"),
    );
    assert(crate::json::entry_models_of(entries@) =~= seq![
        ("transfer_id"@, JsonModel::Str(id@)),
        ("status"@, JsonModel::Str("not_found"@)),
        ("message"@, JsonModel::Str("transfer not found (gateway state is ephemeral in alpha)"@)),
    ]);
    Ok(JsonValue::Object(entries))
}

/// `gateway.list`: no transfers are kept yet.
pub fn gateway_list() -> (r: JsonValue)
    ensures
        r@ == JsonModel::Object(
            seq![
                ("transfers"@, JsonModel::Array(Seq::empty())),
                ("count"@, JsonModel::UInt(0)),
                ("message"@, JsonModel::Str("gateway state is ephemeral in alpha"@)),
            ],
        ),
{
    proof {
        reveal_strlit("gateway state is ephemeral in alpha");
    }
    let mut entries = new_entries();
    push_entry(&mut entries, "transfers", JsonValue::Array(new_items()));
    push_entry(&mut entries, "count", JsonValue::UInt(0));
    push_entry(&mut entries, "message", JsonValue::from_str_slice("gateway state is ephemeral in alpha"));
    assert(crate::json::entry_models_of(entries@) =~= seq![
        ("transfers"@, JsonModel::Array(Seq::empty())),
        ("count"@, JsonModel::UInt(0)),
        ("message"@, JsonModel::Str("gateway state is ephemeral in alpha"@)),
    ]);
    JsonValue::Object(entries)
}

} // verus!
