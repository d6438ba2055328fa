//! What the traffic analytics feed back into the node: path-selector
//! settings from routing-policy recommendations, packet-filter privacy
//! modes from congestion actions, and the demand summaries sent to peers.

use vstd::prelude::*;
use crate::codecs::{hex_encode, hex_text};
use crate::json::{JsonModel, JsonValue, new_entries, push_entry};

verus! {

/// How traffic is spread over paths.
#[derive(PartialEq, Eq, Structural, Clone, Copy, Debug)]
pub enum SchedulingStrategy {
    BandwidthWeighted,
    LowestLatency,
    Redundant,
    RoundRobin,
}

/// A routing-policy recommendation (its congestion estimate does not take
/// part in the translation and is not kept).
#[derive(PartialEq, Eq, Structural, Clone, Copy, Debug)]
pub struct PathPolicyRecommendation {
    pub enable_redundant: bool,
    pub strategy: SchedulingStrategy,
}

/// Name of a strategy as the path selector expects it.
pub open spec fn strategy_name(s: SchedulingStrategy) -> Seq<char> {
    match s {
        SchedulingStrategy::BandwidthWeighted => "BandwidthWeighted"@,
        SchedulingStrategy::LowestLatency => "LowestLatency"@,
        SchedulingStrategy::Redundant => "Redundant"@,
        SchedulingStrategy::RoundRobin => "RoundRobin"@,
    }
}

/// The `(enable_redundant, strategy name)` pair for a recommendation.
pub fn apply_path_recommendation(rec: &PathPolicyRecommendation) -> (r: (bool, &'static str))
    ensures
        r.0 == rec.enable_redundant,
        r.1@ == strategy_name(rec.strategy),
{
    let name = match rec.strategy {
        SchedulingStrategy::BandwidthWeighted => "BandwidthWeighted",
        SchedulingStrategy::LowestLatency => "LowestLatency",
        SchedulingStrategy::Redundant => "Redundant",
        SchedulingStrategy::RoundRobin => "RoundRobin",
    };
    (rec.enable_redundant, name)
}

/// A congestion-driven change to the packet filter's privacy policy.
#[derive(PartialEq, Eq, Structural, Clone, Copy, Debug)]
pub enum PrivacyAction {
    Tighten,
    Relax,
    NoChange,
}

/// A packet-filter privacy mode.
#[derive(PartialEq, Eq, Structural, Clone, Copy, Debug)]
pub enum FilterPrivacyMode {
    /// Bounded and tracked: the most restrictive policy.
    Private,
    /// Unbounded and tracked: the most permissive policy.
    Public,
}

/// The mode an action sets: tightening makes traffic private, relaxing
/// public, and no change sets nothing.
pub fn privacy_mode_for_action(action: PrivacyAction) -> (r: Option<FilterPrivacyMode>)
    ensures
        action == PrivacyAction::Tighten ==> r == Some(FilterPrivacyMode::Private),
        action == PrivacyAction::Relax ==> r == Some(FilterPrivacyMode::Public),
        action == PrivacyAction::NoChange ==> r is None,
{
    match action {
        PrivacyAction::Tighten => Some(FilterPrivacyMode::Private),
        PrivacyAction::Relax => Some(FilterPrivacyMode::Public),
        PrivacyAction::NoChange => None,
    }
}

/// The demand summary of one tracked shard, as sent to other nodes: its
/// hash in hex, how often it was asked for, by how many consumers, and
/// when last (microseconds since the epoch).
pub fn demand_summary(
    shard_hash: &[u8],
    request_count: u64,
    unique_consumers: u64,
    last_request_us: u64,
) -> (r: JsonValue)
    ensures
        r@ == JsonModel::Object(
            seq![
                ("shard_hash"@, JsonModel::Str(hex_text(shard_hash@))),
                ("request_count"@, JsonModel::UInt(request_count)),
                ("unique_consumers"@, JsonModel::UInt(unique_consumers)),
                ("last_request_us"@, JsonModel::UInt(last_request_us)),
            ],
        ),
{
    let mut entries = new_entries();
    push_entry(&mut entries, "shard_hash", JsonValue::Str(hex_encode(shard_hash)));
    push_entry(&mut entries, "request_count", JsonValue::UInt(request_count));
    push_entry(&mut entries, "unique_consumers", JsonValue::UInt(unique_consumers));
    push_entry(&mut entries, "last_request_us", JsonValue::UInt(last_request_us));
    assert(crate::json::entry_models_of(entries@) =~= seq![
        ("shard_hash"@, JsonModel::Str(hex_text(shard_hash@))),
        ("request_count"@, JsonModel::UInt(request_count)),
        ("unique_consumers"@, JsonModel::UInt(unique_consumers)),
        ("last_request_us"@, JsonModel::UInt(last_request_us)),
    ]);
    JsonValue::Object(entries)
}

} // verus!
