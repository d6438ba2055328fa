//! Replies of the `caesar.*` economics requests when the Caesar protocol
//! is not available: not built in, or not started.

use vstd::prelude::*;
use crate::json::{
    JsonModel, JsonValue, entry_models_of, json_get_u64, new_entries, new_items, push_entry,
};

verus! {

/// Why the Caesar protocol cannot answer.
#[derive(PartialEq, Eq, Structural, Clone, Copy, Debug)]
pub enum CaesarUnavailable {
    /// The daemon was built without it.
    FeatureDisabled,
    /// It was built in but failed to start.
    ProtocolUnavailable,
}

/// The members every unavailable reply starts with.
pub open spec fn unavailable_base(node_id: Seq<char>, method: Seq<char>, why: CaesarUnavailable) -> Seq<
    (Seq<char>, JsonModel),
> {
    match why {
        CaesarUnavailable::FeatureDisabled => seq![
            ("node_id"@, JsonModel::Str(node_id)),
            ("error"@, JsonModel::Str("feature_unavailable"@)),
            ("method"@, JsonModel::Str(method)),
            ("message"@, JsonModel::Str("caesar feature not enabled at build time"@)),
        ],
        CaesarUnavailable::ProtocolUnavailable => seq![
            ("node_id"@, JsonModel::Str(node_id)),
            ("error"@, JsonModel::Str("protocol_unavailable"@)),
            ("method"@, JsonModel::Str(method)),
            ("message"@, JsonModel::Str("Caesar protocol failed to initialize at daemon startup"@)),
        ],
    }
}

fn base_entries(node_id: &str, method: &str, why: CaesarUnavailable) -> (r: Vec<(String, JsonValue)>)
    ensures
        entry_models_of(r@) == unavailable_base(node_id@, method@, why),
{
    proof {
        reveal_strlit("feature_unavailable");
        reveal_strlit("caesar feature not enabled at build time");
        reveal_strlit("protocol_unavailable");
        reveal_strlit("Caesar protocol failed to initialize at daemon startup");
    }
    let mut entries = new_entries();
    push_entry(&mut entries, "node_id", JsonValue::from_str_slice(node_id));
    match why {
        CaesarUnavailable::FeatureDisabled => {
            push_entry(&mut entries, "error", JsonValue::from_str_slice("feature_unavailable"));
            push_entry(&mut entries, "method", JsonValue::from_str_slice(method));
            push_entry(
                &mut entries,
                "message",
                JsonValue::from_str_slice("caesar feature not enabled at build time"),
            );
        },
        CaesarUnavailable::ProtocolUnavailable => {
            push_entry(&mut entries, "error", JsonValue::from_str_slice("protocol_unavailable"));
            push_entry(&mut entries, "method", JsonValue::from_str_slice(method));
            push_entry(
                &mut entries,
                "message",
                JsonValue::from_str_slice("Caesar protocol failed to initialize at daemon startup"),
            );
        },
    }
    assert(entry_models_of(entries@) =~= unavailable_base(node_id@, method@, why));
    entries
}

/// Reply to `caesar.overview`: the chain height and uptime are still given.
pub fn caesar_overview_unavailable(
    node_id: &str,
    why: CaesarUnavailable,
    chain_height: u64,
    uptime_secs: u64,
) -> (r: JsonValue)
    ensures
        r@ == JsonModel::Object(
            unavailable_base(node_id@, "caesar.overview"@, why).push(
                ("chain_height"@, JsonModel::UInt(chain_height)),
            ).push(("uptime_secs"@, JsonModel::UInt(uptime_secs))),
        ),
{
    let mut entries = base_entries(node_id, "caesar.overview", why);
    push_entry(&mut entries, "chain_height", JsonValue::UInt(chain_height));
    push_entry(&mut entries, "uptime_secs", JsonValue::UInt(uptime_secs));
    JsonValue::Object(entries)
}

/// Reply to `caesar.balance`.
pub fn caesar_balance_unavailable(node_id: &str, why: CaesarUnavailable) -> (r: JsonValue)
    ensures
        r@ == JsonModel::Object(unavailable_base(node_id@, "caesar.balance"@, why)),
{
    JsonValue::Object(base_entries(node_id, "caesar.balance", why))
}

/// Reply to `caesar.transactions`: no transactions, and the limit asked
/// for (50 by default).
pub fn caesar_transactions_unavailable(node_id: &str, why: CaesarUnavailable, params: &JsonValue) -> (r:
    JsonValue)
    ensures
        r@ == JsonModel::Object(
            unavailable_base(node_id@, "caesar.transactions"@, why).push(
                (
                    "limit"@,
                    JsonModel::UInt(
                        match json_get_u64(params@, "limit"@) {
                            Some(n) => n,
                            None => 50,
                        },
                    ),
                ),
            ).push(("transactions"@, JsonModel::Array(Seq::empty()))).push(
                ("count"@, JsonModel::UInt(0)),
            ),
        ),
{
    let limit = match params.get_u64("limit") {
        Some(n) => n,
        None => 50,
    };
    let mut entries = base_entries(node_id, "caesar.transactions", why);
    push_entry(&mut entries, "limit", JsonValue::UInt(limit));
    push_entry(&mut entries, "transactions", JsonValue::Array(new_items()));
    push_entry(&mut entries, "count", JsonValue::UInt(0));
    JsonValue::Object(entries)
}

/// Reply to `caesar.rewards`: the number of hosted shards, and, when the
/// feature is not built in, the privacy mode.
pub fn caesar_rewards_unavailable(
    node_id: &str,
    why: CaesarUnavailable,
    shards_hosted: u64,
    privacy_mode: &str,
) -> (r: JsonValue)
    ensures
        why == CaesarUnavailable::FeatureDisabled ==> r@ == JsonModel::Object(
            unavailable_base(node_id@, "caesar.rewards"@, why).push(
                ("shards_hosted"@, JsonModel::UInt(shards_hosted)),
            ).push(("privacy_mode"@, JsonModel::Str(privacy_mode@))),
        ),
        why == CaesarUnavailable::ProtocolUnavailable ==> r@ == JsonModel::Object(
            unavailable_base(node_id@, "caesar.rewards"@, why).push(
                ("shards_hosted"@, JsonModel::UInt(shards_hosted)),
            ),
        ),
{
    let mut entries = base_entries(node_id, "caesar.rewards", why);
    push_entry(&mut entries, "shards_hosted", JsonValue::UInt(shards_hosted));
    if why == CaesarUnavailable::FeatureDisabled {
        push_entry(&mut entries, "privacy_mode", JsonValue::from_str_slice(privacy_mode));
    }
    JsonValue::Object(entries)
}

/// Reply to `caesar.staking`: when the feature is not built in, an empty
/// list of stakes.
pub fn caesar_staking_unavailable(node_id: &str, why: CaesarUnavailable) -> (r: JsonValue)
    ensures
        why == CaesarUnavailable::FeatureDisabled ==> r@ == JsonModel::Object(
            unavailable_base(node_id@, "caesar.staking"@, why).push(
                ("stake_entries"@, JsonModel::Array(Seq::empty())),
            ),
        ),
        why == CaesarUnavailable::ProtocolUnavailable ==> r@ == JsonModel::Object(
            unavailable_base(node_id@, "caesar.staking"@, why),
        ),
{
    let mut entries = base_entries(node_id, "caesar.staking", why);
    if why == CaesarUnavailable::FeatureDisabled {
        push_entry(&mut entries, "stake_entries", JsonValue::Array(new_items()));
    }
    JsonValue::Object(entries)
}

} // verus!
