//! `share.send`: the checks on the call, the invite identifier, and the
//! reply. Loading the identity and shard map, key wrapping, signing and
//! name resolution are the caller's.

use vstd::prelude::*;
use vstd::utf8::encode_utf8;
use crate::codecs::{blake3_digest, blake3_hash, hex_decodable, hex_decode, hex_decoded, hex_encode, hex_error_text, hex_text};
use crate::json::{JsonModel, JsonValue, json_get_str, push_entry};
use crate::protocol::{RpcError, INVALID_PARAMS, is_error};
use crate::text::{concat2, concat3};

verus! {

/// The checked parameters of `share.send`.
#[derive(Debug)]
pub struct ShareSendParams {
    pub asset_id: String,
    pub recipient: String,
    /// Display name of the invite; the asset id when none is given.
    pub asset_name: String,
}

/// The checks on `share.send`: `asset_id` and `recipient` strings are
/// required.
pub open spec fn share_send_spec(params: JsonModel) -> Result<(Seq<char>, Seq<char>, Seq<char>), Seq<char>> {
    match json_get_str(params, "asset_id"@) {
        None => Err("missing or invalid 'asset_id' parameter"@),
        Some(a) => match json_get_str(params, "recipient"@) {
            None => Err("missing or invalid 'recipient' parameter"@),
            Some(r) => Ok(
                (
                    a,
                    r,
                    match json_get_str(params, "asset_name"@) {
                        Some(n) => n,
                        None => a,
                    },
                ),
            ),
        },
    }
}

/// Check the parameters of `share.send` (see `share_send_spec`).
pub fn share_send_params(params: &JsonValue) -> (r: Result<ShareSendParams, RpcError>)
    ensures
        match share_send_spec(params@) {
            Ok((a, rc, n)) => r matches Ok(p) && p.asset_id@ == a && p.recipient@ == rc
                && p.asset_name@ == n,
            Err(m) => r matches Err(e) && is_error(e, INVALID_PARAMS, m),
        },
{
    proof {
        reveal_strlit("missing or invalid 'asset_id' parameter");
        reveal_strlit("missing or invalid 'recipient' parameter");
    }
    let asset_id = match params.get_str("asset_id") {
        Some(a) => a,
        None => {
            return Err(
                RpcError::new(
                    INVALID_PARAMS,
                    String::from_str("missing or invalid 'asset_id' parameter"),
                ),
            );
        },
    };
    let recipient = match params.get_str("recipient") {
        Some(r) => r,
        None => {
            return Err(
                RpcError::new(
                    INVALID_PARAMS,
                    String::from_str("missing or invalid 'recipient' parameter"),
                ),
            );
        },
    };
    let name = match params.get_str("asset_name") {
        Some(n) => n,
        None => asset_id,
    };
    Ok(
        ShareSendParams {
            asset_id: String::from_str(asset_id),
            recipient: String::from_str(recipient),
            asset_name: String::from_str(name),
        },
    )
}

/// Message when the recipient's Kyber key is missing.
pub open spec fn missing_kyber_message() -> Seq<char> {
    "missing 'recipient_kyber_pubkey' (hex): the recipient's Kyber-1024 public key is required to wrap the decryption key for them"@
}

/// Decode the recipient's Kyber public key, given as hex.
pub fn parse_recipient_kyber_pubkey(params: &JsonValue) -> (r: Result<Vec<u8>, RpcError>)
    ensures
        match json_get_str(params@, "recipient_kyber_pubkey"@) {
            None => r matches Err(e) && is_error(e, INVALID_PARAMS, missing_kyber_message()),
            Some(h) => if hex_decodable(encode_utf8(h)) {
                r matches Ok(v) && v@ == hex_decoded(encode_utf8(h))
            } else {
                r matches Err(e) && is_error(
                    e,
                    INVALID_PARAMS,
                    "invalid recipient_kyber_pubkey hex: "@ + hex_error_text(h),
                )
            },
        },
{
    match params.get_str("recipient_kyber_pubkey") {
        None => {
            proof {
                reveal_strlit(
                    "missing 'recipient_kyber_pubkey' (hex): the recipient's Kyber-1024 public key is required to wrap the decryption key for them",
                );
            }
            Err(
                RpcError::new(
                    INVALID_PARAMS,
                    String::from_str(
                        "missing 'recipient_kyber_pubkey' (hex): the recipient's Kyber-1024 public key is required to wrap the decryption key for them",
                    ),
                ),
            )
        },
        Some(h) => match hex_decode(h) {
            Ok(v) => Ok(v),
            Err(e) => {
                proof {
                    reveal_strlit("invalid recipient_kyber_pubkey hex: ");
                }
                Err(RpcError::new(INVALID_PARAMS, concat2("invalid recipient_kyber_pubkey hex: ", e.as_str())))
            },
        },
    }
}

/// Whether a recipient is a name to resolve rather than a node id: node
/// ids are at least 64 bytes long.
pub fn needs_name_resolution(recipient: &str) -> (r: bool)
    ensures
        r == (crate::catalog::byte_len(recipient) < 64),
{
    recipient.len() < 64
}

/// A resolved recipient shown with its address.
pub fn resolved_recipient(recipient: &str, address: Option<&str>) -> (r: String)
    ensures
        match address {
            Some(a) => r@ == recipient@ + " ("@ + a@ + ")"@,
            None => r@ == recipient@,
        },
{
    match address {
        Some(a) => {
            let head = concat3(recipient, " (", a);
            proof {
                reveal_strlit(" (");
                reveal_strlit(")");
            }
            concat2(head.as_str(), ")")
        },
        None => String::from_str(recipient),
    }
}

/// An invite's identifier: `inv-` and the first 16 hex digits of the
/// BLAKE3 hash of the asset id, the recipient and `salt`, in that order.
pub open spec fn invite_id_spec(asset_id: Seq<char>, recipient: Seq<char>, salt: Seq<u8>) -> Seq<char> {
    "inv-"@ + hex_text(blake3_digest(encode_utf8(asset_id) + encode_utf8(recipient) + salt)).take(16)
}

/// The identifier of an invite (see `invite_id_spec`).
pub fn invite_id(asset_id: &str, recipient: &str, salt: &[u8]) -> (r: String)
    ensures
        r@ == invite_id_spec(asset_id@, recipient@, salt@),
{
    let mut data: Vec<u8> = Vec::new();
    let a = asset_id.as_bytes();
    let b = recipient.as_bytes();
    let mut i: usize = 0;
    while i < a.len()
        invariant
            i <= a@.len(),
            data@ == a@.take(i as int),
        decreases a@.len() - i,
    {
        data.push(a[i]);
        i = i + 1;
        assert(data@ =~= a@.take(i as int));
    }
    let mut j: usize = 0;
    while j < b.len()
        invariant
            j <= b@.len(),
            data@ == a@ + b@.take(j as int),
        decreases b@.len() - j,
    {
        data.push(b[j]);
        j = j + 1;
        assert(data@ =~= a@ + b@.take(j as int));
    }
    let mut k: usize = 0;
    while k < salt.len()
        invariant
            k <= salt@.len(),
            data@ == a@ + b@ + salt@.take(k as int),
        decreases salt@.len() - k,
    {
        data.push(salt[k]);
        k = k + 1;
        assert(data@ =~= a@ + b@ + salt@.take(k as int));
    }
    assert(a@.take(a@.len() as int) =~= a@);
    assert(b@.take(b@.len() as int) =~= b@);
    assert(salt@.take(salt@.len() as int) =~= salt@);
    let digest = blake3_hash(data.as_slice());
    let hex = hex_encode(digest.as_slice());
    proof {
        lemma_hex_text_len(digest@);
    }
    let prefix = hex.as_str().substring_char(0, 16);
    assert(prefix@ =~= hex@.take(16));
    proof {
        reveal_strlit("inv-");
    }
    concat2("inv-", prefix)
}

/// Hex text has two digits per byte.
pub proof fn lemma_hex_text_len(b: Seq<u8>)
    ensures
        hex_text(b).len() == 2 * b.len(),
    decreases b.len(),
{
    if b.len() > 0 {
        lemma_hex_text_len(b.drop_last());
    }
}

/// Error for an asset with no shard map on this node.
pub fn shard_map_missing(asset_id: &str) -> (r: RpcError)
    ensures
        is_error(
            r,
            INVALID_PARAMS,
            "no shard map for asset "@ + asset_id@ + "; was it stored on this node?"@,
        ),
{
    proof {
        reveal_strlit("no shard map for asset ");
        reveal_strlit("; was it stored on this node?");
    }
    RpcError::new(INVALID_PARAMS, concat3("no shard map for asset ", asset_id, "; was it stored on this node?"))
}

/// The reply to a created invite.
pub open spec fn share_sent_spec(
    invite_id: Seq<char>,
    asset_id: Seq<char>,
    recipient: Seq<char>,
    sender: Seq<char>,
    encrypted: bool,
    shard_count: u64,
    invite_bytes: u64,
) -> JsonModel {
    JsonModel::Object(
        seq![
            ("invite_id"@, JsonModel::Str(invite_id)),
            ("asset_id"@, JsonModel::Str(asset_id)),
            ("recipient"@, JsonModel::Str(recipient)),
            ("sender"@, JsonModel::Str(sender)),
            ("encrypted"@, JsonModel::Bool(encrypted)),
            ("shard_count"@, JsonModel::UInt(shard_count)),
            ("signed"@, JsonModel::Bool(true)),
            ("invite_bytes"@, JsonModel::UInt(invite_bytes)),
            ("delivered"@, JsonModel::Bool(false)),
            ("status"@, JsonModel::Str("created_undelivered"@)),
        ],
    )
}

/// Build the reply to a created invite.
pub fn share_sent_reply(
    invite_id: &str,
    asset_id: &str,
    recipient: &str,
    sender: &str,
    encrypted: bool,
    shard_count: u64,
    invite_bytes: u64,
) -> (r: JsonValue)
    ensures
        r@ == share_sent_spec(
            invite_id@,
            asset_id@,
            recipient@,
            sender@,
            encrypted,
            shard_count,
            invite_bytes,
        ),
{
    proof {
        reveal_strlit("created_undelivered");
    }
    let mut entries: Vec<(String, JsonValue)> = Vec::new();
    proof {
        crate::json::lemma_entry_models_of_len(entries@);
        assert(crate::json::entry_models_of(entries@) =~= Seq::empty());
    }
    push_entry(&mut entries, "invite_id", JsonValue::from_str_slice(invite_id));
    push_entry(&mut entries, "asset_id", JsonValue::from_str_slice(asset_id));
    push_entry(&mut entries, "recipient", JsonValue::from_str_slice(recipient));
    push_entry(&mut entries, "sender", JsonValue::from_str_slice(sender));
    push_entry(&mut entries, "encrypted", JsonValue::Bool(encrypted));
    push_entry(&mut entries, "shard_count", JsonValue::UInt(shard_count));
    push_entry(&mut entries, "signed", JsonValue::Bool(true));
    push_entry(&mut entries, "invite_bytes", JsonValue::UInt(invite_bytes));
    push_entry(&mut entries, "delivered", JsonValue::Bool(false));
    push_entry(&mut entries, "status", JsonValue::from_str_slice("created_undelivered"));
    assert(crate::json::entry_models_of(entries@) =~= seq![
        ("invite_id"@, JsonModel::Str(invite_id@)),
        ("asset_id"@, JsonModel::Str(asset_id@)),
        ("recipient"@, JsonModel::Str(recipient@)),
        ("sender"@, JsonModel::Str(sender@)),
        ("encrypted"@, JsonModel::Bool(encrypted)),
        ("shard_count"@, JsonModel::UInt(shard_count)),
        ("signed"@, JsonModel::Bool(true)),
        ("invite_bytes"@, JsonModel::UInt(invite_bytes)),
        ("delivered"@, JsonModel::Bool(false)),
        ("status"@, JsonModel::Str("created_undelivered"@)),
    ]);
    JsonValue::Object(entries)
}

} // verus!
