//! Received shares: `share.inbox`, `share.accept` and `share.reject`.
//! Unwrapping keys and writing the accepted shard map are the caller's.

use vstd::prelude::*;
use crate::json::{
    JsonModel, JsonValue, json_get_str, json_get_u64, models_of, new_entries, new_items, push_entry,
    push_item,
};
use crate::protocol::{RpcError, INTERNAL_ERROR, INVALID_PARAMS, is_error};
use crate::text::{concat2, concat3};

verus! {

/// An invite waiting in the inbox, as `share.inbox` lists it.
#[derive(Debug)]
pub struct InviteSummary {
    pub invite_id: String,
    pub asset_id: String,
    pub asset_name: String,
    pub asset_size: u64,
    pub shard_count: u64,
    pub sender_node_id: String,
    pub sender_name: String,
    /// Whether the invite carries a wrapped key.
    pub encrypted: bool,
    pub created_at: u64,
}

pub open spec fn invite_json(i: InviteSummary) -> JsonModel {
    JsonModel::Object(
        seq![
            ("invite_id"@, JsonModel::Str(i.invite_id@)),
            ("asset_id"@, JsonModel::Str(i.asset_id@)),
            ("asset_name"@, JsonModel::Str(i.asset_name@)),
            ("asset_size"@, JsonModel::UInt(i.asset_size)),
            ("shard_count"@, JsonModel::UInt(i.shard_count)),
            ("sender_node_id"@, JsonModel::Str(i.sender_node_id@)),
            ("sender_name"@, JsonModel::Str(i.sender_name@)),
            ("encrypted"@, JsonModel::Bool(i.encrypted)),
            ("created_at"@, JsonModel::UInt(i.created_at)),
        ],
    )
}

/// The listing limit: `limit`, or 50.
pub open spec fn inbox_limit(params: JsonModel) -> u64 {
    match json_get_u64(params, "limit"@) {
        Some(n) => n,
        None => 50,
    }
}

/// How many invites are shown: all of them, up to the limit.
pub open spec fn shown(total: nat, limit: u64) -> int {
    if total < limit {
        total as int
    } else {
        limit as int
    }
}

pub open spec fn inbox_reply_spec(params: JsonModel, invites: Option<Seq<InviteSummary>>) -> JsonModel {
    match invites {
        None => JsonModel::Object(
            seq![
                ("invites"@, JsonModel::Array(Seq::empty())),
                ("count"@, JsonModel::UInt(0)),
                ("limit"@, JsonModel::UInt(inbox_limit(params))),
            ],
        ),
        Some(all) => JsonModel::Object(
            seq![
                (
                    "invites"@,
                    JsonModel::Array(
                        all.take(shown(all.len(), inbox_limit(params))).map_values(
                            |i: InviteSummary| invite_json(i),
                        ),
                    ),
                ),
                ("count"@, JsonModel::UInt(all.len() as u64)),
                ("limit"@, JsonModel::UInt(inbox_limit(params))),
            ],
        ),
    }
}

/// Reply to `share.inbox`: the first invites up to the limit, and how many
/// there are in all; with no inbox on this node, none.
pub fn share_inbox_reply(params: &JsonValue, invites: Option<&Vec<InviteSummary>>) -> (r: JsonValue)
    ensures
        r@ == inbox_reply_spec(
            params@,
            match invites {
                Some(v) => Some(v@),
                None => None,
            },
        ),
{
    let limit = match params.get_u64("limit") {
        Some(n) => n,
        None => 50,
    };
    match invites {
        None => {
            let mut entries = new_entries();
            push_entry(&mut entries, "invites", JsonValue::Array(new_items()));
            push_entry(&mut entries, "count", JsonValue::UInt(0));
            push_entry(&mut entries, "limit", JsonValue::UInt(limit));
            assert(crate::json::entry_models_of(entries@) =~= seq![
                ("invites"@, JsonModel::Array(Seq::empty())),
                ("count"@, JsonModel::UInt(0)),
                ("limit"@, JsonModel::UInt(inbox_limit(params@))),
            ]);
            JsonValue::Object(entries)
        },
        Some(all) => {
            let mut items = new_items();
            let mut i: usize = 0;
            while i < all.len() && (i as u64) < limit
                invariant
                    i <= all@.len(),
                    i <= limit,
                    models_of(items@) == all@.take(i as int).map_values(
                        |x: InviteSummary| invite_json(x),
                    ),
                decreases all@.len() - i,
            {
                let ghost before = models_of(items@);
                let v = &all[i];
                let mut e = new_entries();
                push_entry(&mut e, "invite_id", JsonValue::from_str_slice(v.invite_id.as_str()));
                push_entry(&mut e, "asset_id", JsonValue::from_str_slice(v.asset_id.as_str()));
                push_entry(&mut e, "asset_name", JsonValue::from_str_slice(v.asset_name.as_str()));
                push_entry(&mut e, "asset_size", JsonValue::UInt(v.asset_size));
                push_entry(&mut e, "shard_count", JsonValue::UInt(v.shard_count));
                push_entry(
                    &mut e,
                    "sender_node_id",
                    JsonValue::from_str_slice(v.sender_node_id.as_str()),
                );
                push_entry(&mut e, "sender_name", JsonValue::from_str_slice(v.sender_name.as_str()));
                push_entry(&mut e, "encrypted", JsonValue::Bool(v.encrypted));
                push_entry(&mut e, "created_at", JsonValue::UInt(v.created_at));
                assert(crate::json::entry_models_of(e@) =~= seq![
                    ("invite_id"@, JsonModel::Str(v.invite_id@)),
                    ("asset_id"@, JsonModel::Str(v.asset_id@)),
                    ("asset_name"@, JsonModel::Str(v.asset_name@)),
                    ("asset_size"@, JsonModel::UInt(v.asset_size)),
                    ("shard_count"@, JsonModel::UInt(v.shard_count)),
                    ("sender_node_id"@, JsonModel::Str(v.sender_node_id@)),
                    ("sender_name"@, JsonModel::Str(v.sender_name@)),
                    ("encrypted"@, JsonModel::Bool(v.encrypted)),
                    ("created_at"@, JsonModel::UInt(v.created_at)),
                ]);
                push_item(&mut items, JsonValue::Object(e));
                assert(all@.take(i + 1) =~= all@.take(i as int).push(all@[i as int]));
                assert(all@.take(i + 1).map_values(|x: InviteSummary| invite_json(x)) =~= before.push(
                    invite_json(all@[i as int]),
                ));
                i = i + 1;
            }
            assert(i as int == shown(all@.len(), limit));
            let mut entries = new_entries();
            push_entry(&mut entries, "invites", JsonValue::Array(items));
            push_entry(&mut entries, "count", JsonValue::UInt(all.len() as u64));
            push_entry(&mut entries, "limit", JsonValue::UInt(limit));
            assert(crate::json::entry_models_of(entries@) =~= seq![
                (
                    "invites"@,
                    JsonModel::Array(
                        all@.take(shown(all@.len(), inbox_limit(params@))).map_values(
                            |x: InviteSummary| invite_json(x),
                        ),
                    ),
                ),
                ("count"@, JsonModel::UInt(all@.len() as u64)),
                ("limit"@, JsonModel::UInt(inbox_limit(params@))),
            ]);
            JsonValue::Object(entries)
        },
    }
}

/// The invite a `share.accept` or `share.reject` call names.
pub fn invite_id_param(params: &JsonValue) -> (r: Result<String, RpcError>)
    ensures
        match json_get_str(params@, "invite_id"@) {
            Some(i) => r matches Ok(s) && s@ == i,
            None => r matches Err(e) && is_error(
                e,
                INVALID_PARAMS,
                "missing or invalid 'invite_id' parameter"@,
            ),
        },
{
    proof {
        reveal_strlit("missing or invalid 'invite_id' parameter");
    }
    match params.get_str("invite_id") {
        Some(i) => Ok(String::from_str(i)),
        None => Err(
            RpcError::new(INVALID_PARAMS, String::from_str("missing or invalid 'invite_id' parameter")),
        ),
    }
}

/// Error when this node keeps no inbox.
pub fn inbox_not_configured() -> (r: RpcError)
    ensures
        is_error(r, INTERNAL_ERROR, "sharing inbox not configured on this node"@),
{
    proof {
        reveal_strlit("sharing inbox not configured on this node");
    }
    RpcError::new(INTERNAL_ERROR, String::from_str("sharing inbox not configured on this node"))
}

/// Error for an invite the inbox does not hold.
pub fn invite_not_found(invite_id: &str) -> (r: RpcError)
    ensures
        is_error(r, INVALID_PARAMS, "invite "@ + invite_id@ + " not found"@),
{
    proof {
        reveal_strlit("invite ");
        reveal_strlit(" not found");
    }
    RpcError::new(INVALID_PARAMS, concat3("invite ", invite_id, " not found"))
}

/// The steps of accepting an invite that can fail.
#[derive(PartialEq, Eq, Structural, Clone, Copy, Debug)]
pub enum AcceptStage {
    ParseMap,
    UnwrapKey,
    SelfWrap,
    CreateDir,
    SerializeMap,
    WriteMap,
}

/// Message prefix of a failed step.
pub open spec fn accept_prefix(stage: AcceptStage) -> Seq<char> {
    match stage {
        AcceptStage::ParseMap => "parse invite shard map: "@,
        AcceptStage::UnwrapKey => "failed to unwrap key (are you the intended recipient?): "@,
        AcceptStage::SelfWrap => "failed to self-wrap key: "@,
        AcceptStage::CreateDir => "create shard_maps dir: "@,
        AcceptStage::SerializeMap => "serialize accepted map: "@,
        AcceptStage::WriteMap => "write accepted map: "@,
    }
}

/// Error for a failed step of accepting an invite.
pub fn accept_failed(stage: AcceptStage, detail: &str) -> (r: RpcError)
    ensures
        is_error(r, INTERNAL_ERROR, accept_prefix(stage) + detail@),
{
    proof {
        reveal_strlit("parse invite shard map: ");
        reveal_strlit("failed to unwrap key (are you the intended recipient?): ");
        reveal_strlit("failed to self-wrap key: ");
        reveal_strlit("create shard_maps dir: ");
        reveal_strlit("serialize accepted map: ");
        reveal_strlit("write accepted map: ");
    }
    let prefix = match stage {
        AcceptStage::ParseMap => "parse invite shard map: ",
        AcceptStage::UnwrapKey => "failed to unwrap key (are you the intended recipient?): ",
        AcceptStage::SelfWrap => "failed to self-wrap key: ",
        AcceptStage::CreateDir => "create shard_maps dir: ",
        AcceptStage::SerializeMap => "serialize accepted map: ",
        AcceptStage::WriteMap => "write accepted map: ",
    };
    RpcError::new(INTERNAL_ERROR, concat2(prefix, detail))
}

/// Reply for an accepted invite.
pub fn accepted_reply(
    invite_id: &str,
    asset_id: &str,
    shard_count: u64,
    encrypted: bool,
    shard_map_path: &str,
) -> (r: JsonValue)
    ensures
        r@ == JsonModel::Object(
            seq![
                ("invite_id"@, JsonModel::Str(invite_id@)),
                ("asset_id"@, JsonModel::Str(asset_id@)),
                ("shard_count"@, JsonModel::UInt(shard_count)),
                ("encrypted"@, JsonModel::Bool(encrypted)),
                ("shard_map"@, JsonModel::Str(shard_map_path@)),
                ("status"@, JsonModel::Str("accepted"@)),
            ],
        ),
{
    proof {
        reveal_strlit("accepted");
    }
    let mut entries = new_entries();
    push_entry(&mut entries, "invite_id", JsonValue::from_str_slice(invite_id));
    push_entry(&mut entries, "asset_id", JsonValue::from_str_slice(asset_id));
    push_entry(&mut entries, "shard_count", JsonValue::UInt(shard_count));
    push_entry(&mut entries, "encrypted", JsonValue::Bool(encrypted));
    push_entry(&mut entries, "shard_map", JsonValue::from_str_slice(shard_map_path));
    push_entry(&mut entries, "status", JsonValue::from_str_slice("accepted"));
    assert(crate::json::entry_models_of(entries@) =~= seq![
        ("invite_id"@, JsonModel::Str(invite_id@)),
        ("asset_id"@, JsonModel::Str(asset_id@)),
        ("shard_count"@, JsonModel::UInt(shard_count)),
        ("encrypted"@, JsonModel::Bool(encrypted)),
        ("shard_map"@, JsonModel::Str(shard_map_path@)),
        ("status"@, JsonModel::Str("accepted"@)),
    ]);
    JsonValue::Object(entries)
}

/// Reply for a rejected invite: whether the inbox held and dropped it.
pub fn rejected_reply(invite_id: &str, removed: bool) -> (r: JsonValue)
    ensures
        r@ == JsonModel::Object(
            seq![
                ("invite_id"@, JsonModel::Str(invite_id@)),
                ("removed"@, JsonModel::Bool(removed)),
                ("status"@, JsonModel::Str("rejected"@)),
            ],
        ),
{
    proof {
        reveal_strlit("rejected");
    }
    let mut entries = new_entries();
    push_entry(&mut entries, "invite_id", JsonValue::from_str_slice(invite_id));
    push_entry(&mut entries, "removed", JsonValue::Bool(removed));
    push_entry(&mut entries, "status", JsonValue::from_str_slice("rejected"));
    assert(crate::json::entry_models_of(entries@) =~= seq![
        ("invite_id"@, JsonModel::Str(invite_id@)),
        ("removed"@, JsonModel::Bool(removed)),
        ("status"@, JsonModel::Str("rejected"@)),
    ]);
    JsonValue::Object(entries)
}

} // verus!
