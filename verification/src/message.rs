//! Direct messaging requests: `message.send`, `message.inbox`,
//! `message.history` and `message.read`.

use vstd::prelude::*;
use crate::json::{
    JsonModel, JsonValue, json_get_str, json_get_u64, new_entries, new_items, push_entry,
};
use crate::protocol::{RpcError, INVALID_PARAMS, is_error};

verus! {

/// A checked `message.send` call.
#[derive(Debug)]
pub struct MessageSendParams {
    pub recipient: String,
    /// Length of the body in bytes.
    pub body_len: usize,
    pub content_type: String,
    pub reply_to: Option<String>,
}

/// Outcome of the checks on a `message.send` call: the error message, or
/// the recipient, the body's length in bytes, the content type and the
/// message it answers.
pub open spec fn message_send_spec(params: JsonModel) -> Result<
    (Seq<char>, usize, Seq<char>, Option<Seq<char>>),
    Seq<char>,
> {
    match json_get_str(params, "recipient"@) {
        None => Err("missing or invalid 'recipient' parameter"@),
        Some(recipient) => match json_get_str(params, "body"@) {
            None => Err("missing or invalid 'body' parameter"@),
            Some(body) => Ok(
                (
                    recipient,
                    vstd::utf8::encode_utf8(body).len() as usize,
                    match json_get_str(params, "content_type"@) {
                        Some(c) => c,
                        None => "text/plain"@,
                    },
                    json_get_str(params, "reply_to"@),
                ),
            ),
        },
    }
}

pub open spec fn opt_string_view(o: Option<String>) -> Option<Seq<char>> {
    match o {
        Some(s) => Some(s@),
        None => None,
    }
}

/// Check a `message.send` call (see `message_send_spec`).
pub fn message_send_params(params: &JsonValue) -> (r: Result<MessageSendParams, RpcError>)
    ensures
        match message_send_spec(params@) {
            Ok((recipient, body_len, content_type, reply_to)) => r matches Ok(p)
                && p.recipient@ == recipient && p.body_len == body_len
                && p.content_type@ == content_type && opt_string_view(p.reply_to) == reply_to,
            Err(msg) => r matches Err(e) && is_error(e, INVALID_PARAMS, msg),
        },
{
    proof {
        reveal_strlit("missing or invalid 'recipient' parameter");
        reveal_strlit("missing or invalid 'body' parameter");
        reveal_strlit("text/plain");
    }
    let recipient = match params.get_str("recipient") {
        Some(s) => s,
        None => {
            return Err(
                RpcError::new(
                    INVALID_PARAMS,
                    String::from_str("missing or invalid 'recipient' parameter"),
                ),
            );
        },
    };
    let body = match params.get_str("body") {
        Some(s) => s,
        None => {
            return Err(
                RpcError::new(INVALID_PARAMS, String::from_str("missing or invalid 'body' parameter")),
            );
        },
    };
    let content_type = match params.get_str("content_type") {
        Some(c) => c,
        None => "text/plain",
    };
    let reply_to = match params.get_str("reply_to") {
        Some(s) => Some(String::from_str(s)),
        None => None,
    };
    Ok(
        MessageSendParams {
            recipient: String::from_str(recipient),
            body_len: body.len(),
            content_type: String::from_str(content_type),
            reply_to,
        },
    )
}

/// Reply for a created message.
pub open spec fn message_sent_spec(
    message_id: Seq<char>,
    resolved_recipient: Seq<char>,
    body_len: nat,
    content_type: Seq<char>,
) -> JsonModel {
    JsonModel::Object(
        seq![
            ("message_id"@, JsonModel::Str(message_id)),
            ("recipient"@, JsonModel::Str(resolved_recipient)),
            ("body_length"@, JsonModel::UInt(body_len as u64)),
            ("content_type"@, JsonModel::Str(content_type)),
            ("status"@, JsonModel::Str("created"@)),
        ],
    )
}

/// The reply for a created message: its id, the recipient as resolved,
/// the body's length, the content type and `"created"`.
pub fn message_sent_reply(p: &MessageSendParams, resolved_recipient: &str, message_id: &str) -> (r:
    JsonValue)
    ensures
        r@ == message_sent_spec(
            message_id@,
            resolved_recipient@,
            p.body_len as nat,
            p.content_type@,
        ),
{
    proof {
        reveal_strlit("created");
    }
    let mut entries = new_entries();
    push_entry(&mut entries, "message_id", JsonValue::from_str_slice(message_id));
    push_entry(&mut entries, "recipient", JsonValue::from_str_slice(resolved_recipient));
    push_entry(&mut entries, "body_length", JsonValue::UInt(p.body_len as u64));
    push_entry(&mut entries, "content_type", JsonValue::from_str_slice(p.content_type.as_str()));
    push_entry(&mut entries, "status", JsonValue::from_str_slice("created"));
    assert(crate::json::entry_models_of(entries@) =~= seq![
        ("message_id"@, JsonModel::Str(message_id@)),
        ("recipient"@, JsonModel::Str(resolved_recipient@)),
        ("body_length"@, JsonModel::UInt(p.body_len as u64)),
        ("content_type"@, JsonModel::Str(p.content_type@)),
        ("status"@, JsonModel::Str("created"@)),
    ]);
    JsonValue::Object(entries)
}

/// `limit` from the parameters, or `default` when absent or not an
/// unsigned integer.
pub open spec fn limit_or(params: JsonModel, default: u64) -> u64 {
    match json_get_u64(params, "limit"@) {
        Some(n) => n,
        None => default,
    }
}

/// `message.inbox`: no message store is attached yet, so the inbox is
/// empty; the limit (20 by default) is echoed.
pub fn handle_message_inbox(params: &JsonValue) -> (r: JsonValue)
    ensures
        r@ == JsonModel::Object(
            seq![
                ("messages"@, JsonModel::Array(Seq::empty())),
                ("count"@, JsonModel::UInt(0)),
                ("limit"@, JsonModel::UInt(limit_or(params@, 20))),
            ],
        ),
{
    let limit = match params.get_u64("limit") {
        Some(n) => n,
        None => 20,
    };
    let mut entries = new_entries();
    push_entry(&mut entries, "messages", JsonValue::Array(new_items()));
    push_entry(&mut entries, "count", JsonValue::UInt(0));
    push_entry(&mut entries, "limit", JsonValue::UInt(limit));
    assert(crate::json::entry_models_of(entries@) =~= seq![
        ("messages"@, JsonModel::Array(Seq::empty())),
        ("count"@, JsonModel::UInt(0)),
        ("limit"@, JsonModel::UInt(limit_or(params@, 20))),
    ]);
    JsonValue::Object(entries)
}

/// `message.history`: the peer is required; the history is empty and the
/// limit (50 by default) is echoed.
pub fn handle_message_history(params: &JsonValue) -> (r: Result<JsonValue, RpcError>)
    ensures
        match json_get_str(params@, "peer"@) {
            None => r matches Err(e) && is_error(
                e,
                INVALID_PARAMS,
                "missing or invalid 'peer' parameter"@,
            ),
            Some(peer) => r matches Ok(v) && v@ == JsonModel::Object(
                seq![
                    ("peer"@, JsonModel::Str(peer)),
                    ("messages"@, JsonModel::Array(Seq::empty())),
                    ("count"@, JsonModel::UInt(0)),
                    ("limit"@, JsonModel::UInt(limit_or(params@, 50))),
                ],
            ),
        },
{
    proof {
        reveal_strlit("missing or invalid 'peer' parameter");
    }
    let peer = match params.get_str("peer") {
        Some(p) => p,
        None => {
            return Err(
                RpcError::new(INVALID_PARAMS, String::from_str("missing or invalid 'peer' parameter")),
            );
        },
    };
    let limit = match params.get_u64("limit") {
        Some(n) => n,
        None => 50,
    };
    let mut entries = new_entries();
    push_entry(&mut entries, "peer", JsonValue::from_str_slice(peer));
    push_entry(&mut entries, "messages", JsonValue::Array(new_items()));
    push_entry(&mut entries, "count", JsonValue::UInt(0));
    push_entry(&mut entries, "limit", JsonValue::UInt(limit));
    assert(crate::json::entry_models_of(entries@) =~= seq![
        ("peer"@, JsonModel::Str(peer@)),
        ("messages"@, JsonModel::Array(Seq::empty())),
        ("count"@, JsonModel::UInt(0)),
        ("limit"@, JsonModel::UInt(limit_or(params@, 50))),
    ]);
    Ok(JsonValue::Object(entries))
}

/// `message.read`: the message id is required; without a message store
/// the message is reported as not found.
pub fn handle_message_read(params: &JsonValue) -> (r: Result<JsonValue, RpcError>)
    ensures
        match json_get_str(params@, "message_id"@) {
            None => r matches Err(e) && is_error(
                e,
                INVALID_PARAMS,
                "missing or invalid 'message_id' parameter"@,
            ),
            Some(id) => r matches Ok(v) && v@ == JsonModel::Object(
                seq![
                    ("message_id"@, JsonModel::Str(id)),
                    ("status"@, JsonModel::Str("not_found"@)),
                    ("note"@, JsonModel::Str("message store not yet wired to IPC"@)),
                ],
            ),
        },
{
    proof {
        reveal_strlit("missing or invalid 'message_id' parameter");
        reveal_strlit("not_found");
        reveal_strlit("message store not yet wired to IPC");
    }
    let id = match params.get_str("message_id") {
        Some(p) => p,
        None => {
            return Err(
                RpcError::new(
                    INVALID_PARAMS,
                    String::from_str("missing or invalid 'message_id' parameter"),
                ),
            );
        },
    };
    let mut entries = new_entries();
    push_entry(&mut entries, "message_id", JsonValue::from_str_slice(id));
    push_entry(&mut entries, "status", JsonValue::from_str_slice("not_found"));
    push_entry(&mut entries, "note", JsonValue::from_str_slice("message store not yet wired to IPC"));
    assert(crate::json::entry_models_of(entries@) =~= seq![
        ("message_id"@, JsonModel::Str(id@)),
        ("status"@, JsonModel::Str("not_found"@)),
        ("note"@, JsonModel::Str("message store not yet wired to IPC"@)),
    ]);
    Ok(JsonValue::Object(entries))
}

} // verus!
