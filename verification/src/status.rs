//! Node status replies: `ping`, `shutdown`, `status`,
//! `intelligence.stats`, the `stoq.*` transport reports and the
//! `engauge.*` capacity reports.

use vstd::prelude::*;
use crate::json::{JsonModel, JsonValue, models_of, new_entries, new_items, push_entry, push_item};
use crate::network::PeerSummary;
use crate::text::str_eq;
use crate::topology::{coordinate_model, coordinate_value};

verus! {

/// Reply to `ping`.
pub fn ping_reply() -> (r: JsonValue)
    ensures
        r@ == JsonModel::Str("pong"@),
{
    proof {
        reveal_strlit("pong");
    }
    JsonValue::from_str_slice("pong")
}

/// Reply to `shutdown`, sent once the shutdown signal is raised.
pub fn shutdown_reply() -> (r: JsonValue)
    ensures
        r@ == JsonModel::Object(seq![("status"@, JsonModel::Str("shutting_down"@))]),
{
    proof {
        reveal_strlit("shutting_down");
    }
    let mut entries = new_entries();
    push_entry(&mut entries, "status", JsonValue::from_str_slice("shutting_down"));
    assert(crate::json::entry_models_of(entries@) =~= seq![
        ("status"@, JsonModel::Str("shutting_down"@)),
    ]);
    JsonValue::Object(entries)
}

/// What the node reports about itself.
#[derive(Debug)]
pub struct NodeFacts {
    pub node_id: String,
    pub coordinate: (i64, i64, i64),
    pub chain_height: u64,
    pub privacy_mode: String,
    pub peers: u64,
    pub uptime_secs: u64,
}

/// Reply to `status`.
pub fn node_status_reply(f: &NodeFacts) -> (r: JsonValue)
    ensures
        r@ == JsonModel::Object(
            seq![
                ("node_id"@, JsonModel::Str(f.node_id@)),
                ("coordinate"@, coordinate_model(f.coordinate)),
                ("chain_height"@, JsonModel::UInt(f.chain_height)),
                ("privacy_mode"@, JsonModel::Str(f.privacy_mode@)),
                ("peers"@, JsonModel::UInt(f.peers)),
                ("uptime_secs"@, JsonModel::UInt(f.uptime_secs)),
            ],
        ),
{
    let mut entries = new_entries();
    push_entry(&mut entries, "node_id", JsonValue::from_str_slice(f.node_id.as_str()));
    push_entry(&mut entries, "coordinate", coordinate_value(f.coordinate));
    push_entry(&mut entries, "chain_height", JsonValue::UInt(f.chain_height));
    push_entry(&mut entries, "privacy_mode", JsonValue::from_str_slice(f.privacy_mode.as_str()));
    push_entry(&mut entries, "peers", JsonValue::UInt(f.peers));
    push_entry(&mut entries, "uptime_secs", JsonValue::UInt(f.uptime_secs));
    assert(crate::json::entry_models_of(entries@) =~= seq![
        ("node_id"@, JsonModel::Str(f.node_id@)),
        ("coordinate"@, coordinate_model(f.coordinate)),
        ("chain_height"@, JsonModel::UInt(f.chain_height)),
        ("privacy_mode"@, JsonModel::Str(f.privacy_mode@)),
        ("peers"@, JsonModel::UInt(f.peers)),
        ("uptime_secs"@, JsonModel::UInt(f.uptime_secs)),
    ]);
    JsonValue::Object(entries)
}

/// Reply to `intelligence.stats`.
pub fn intelligence_stats_reply(
    intelligence_enabled: bool,
    shard_count: u64,
    peer_count: u64,
    transport_active: bool,
    uptime_secs: u64,
) -> (r: JsonValue)
    ensures
        r@ == JsonModel::Object(
            seq![
                ("intelligence_enabled"@, JsonModel::Bool(intelligence_enabled)),
                (
                    "shard_store"@,
                    JsonModel::Object(seq![("shard_count"@, JsonModel::UInt(shard_count))]),
                ),
                (
                    "network"@,
                    JsonModel::Object(
                        seq![
                            ("peer_count"@, JsonModel::UInt(peer_count)),
                            ("transport_active"@, JsonModel::Bool(transport_active)),
                        ],
                    ),
                ),
                ("uptime_secs"@, JsonModel::UInt(uptime_secs)),
            ],
        ),
{
    let mut store = new_entries();
    push_entry(&mut store, "shard_count", JsonValue::UInt(shard_count));
    assert(crate::json::entry_models_of(store@) =~= seq![
        ("shard_count"@, JsonModel::UInt(shard_count)),
    ]);
    let mut net = new_entries();
    push_entry(&mut net, "peer_count", JsonValue::UInt(peer_count));
    push_entry(&mut net, "transport_active", JsonValue::Bool(transport_active));
    assert(crate::json::entry_models_of(net@) =~= seq![
        ("peer_count"@, JsonModel::UInt(peer_count)),
        ("transport_active"@, JsonModel::Bool(transport_active)),
    ]);
    let mut entries = new_entries();
    push_entry(&mut entries, "intelligence_enabled", JsonValue::Bool(intelligence_enabled));
    push_entry(&mut entries, "shard_store", JsonValue::Object(store));
    push_entry(&mut entries, "network", JsonValue::Object(net));
    push_entry(&mut entries, "uptime_secs", JsonValue::UInt(uptime_secs));
    assert(crate::json::entry_models_of(entries@) =~= seq![
        ("intelligence_enabled"@, JsonModel::Bool(intelligence_enabled)),
        ("shard_store"@, JsonModel::Object(seq![("shard_count"@, JsonModel::UInt(shard_count))])),
        (
            "network"@,
            JsonModel::Object(
                seq![
                    ("peer_count"@, JsonModel::UInt(peer_count)),
                    ("transport_active"@, JsonModel::Bool(transport_active)),
                ],
            ),
        ),
        ("uptime_secs"@, JsonModel::UInt(uptime_secs)),
    ]);
    JsonValue::Object(entries)
}

/// Number of distinct strings in `s`: the positions holding a string not
/// seen before.
pub open spec fn distinct_count(s: Seq<Seq<char>>) -> nat
    decreases s.len(),
{
    if s.len() == 0 {
        0
    } else if s.drop_last().contains(s.last()) {
        distinct_count(s.drop_last())
    } else {
        distinct_count(s.drop_last()) + 1
    }
}

proof fn lemma_distinct_count_le(s: Seq<Seq<char>>)
    ensures
        distinct_count(s) <= s.len(),
    decreases s.len(),
{
    if s.len() > 0 {
        lemma_distinct_count_le(s.drop_last());
    }
}

/// Number of distinct addresses among the peers.
pub fn unique_endpoints(addresses: &Vec<String>) -> (r: u64)
    ensures
        r == distinct_count(addresses@.map_values(|s: String| s@)),
{
    let ghost v = addresses@.map_values(|s: String| s@);
    let mut count: u64 = 0;
    let mut i: usize = 0;
    proof {
        assert(v.take(0) =~= Seq::<Seq<char>>::empty());
    }
    while i < addresses.len()
        invariant
            i <= addresses@.len(),
            v == addresses@.map_values(|s: String| s@),
            count == distinct_count(v.take(i as int)),
        decreases addresses@.len() - i,
    {
        proof {
            assert(v.take(i + 1).drop_last() =~= v.take(i as int));
            lemma_distinct_count_le(v.take(i as int));
        }
        let mut seen = false;
        let mut j: usize = 0;
        while j < i
            invariant
                j <= i < addresses@.len(),
                v == addresses@.map_values(|s: String| s@),
                seen == exists|k: int| 0 <= k < j && v[k] == v[i as int],
            decreases i - j,
        {
            let same = str_eq(addresses[j].as_str(), addresses[i].as_str());
            proof {
                assert(v[j as int] == addresses@[j as int]@);
                assert(v[i as int] == addresses@[i as int]@);
                if seen {
                    let k = choose|k: int| 0 <= k < j && v[k] == v[i as int];
                    assert(0 <= k < j + 1 && v[k] == v[i as int]);
                }
                if same {
                    assert(0 <= j < j + 1 && v[j as int] == v[i as int]);
                }
            }
            if same {
                seen = true;
            }
            j = j + 1;
        }
        proof {
            if seen {
                let k = choose|k: int| 0 <= k < i && v[k] == v[i as int];
                assert(v.take(i as int)[k] == v[i as int]);
            }
            if v.take(i as int).contains(v[i as int]) {
                let k = choose|k: int| 0 <= k < i && v.take(i as int)[k] == v[i as int];
                assert(v[k] == v[i as int]);
            }
        }
        if !seen {
            count = count + 1;
        }
        i = i + 1;
    }
    assert(v.take(addresses@.len() as int) =~= v);
    count
}

/// What the transport reports about itself.
#[derive(Debug)]
pub struct TransportFacts {
    pub node_id: String,
    pub connections: u64,
    pub unique_endpoints: u64,
    pub shard_transport_active: bool,
    pub privacy_mode: String,
    pub uptime_secs: u64,
}

/// Reply to `stoq.stats`; byte counters are not tracked yet and read 0.
pub fn stoq_stats_reply(f: &TransportFacts) -> (r: JsonValue)
    ensures
        r@ == JsonModel::Object(
            seq![
                ("node_id"@, JsonModel::Str(f.node_id@)),
                ("connections"@, JsonModel::UInt(f.connections)),
                ("unique_endpoints"@, JsonModel::UInt(f.unique_endpoints)),
                ("transport_active"@, JsonModel::Bool(f.shard_transport_active)),
                ("shard_transport_active"@, JsonModel::Bool(f.shard_transport_active)),
                ("bytes_sent"@, JsonModel::UInt(0)),
                ("bytes_received"@, JsonModel::UInt(0)),
                ("protocol"@, JsonModel::Str("QUIC"@)),
                ("privacy_mode"@, JsonModel::Str(f.privacy_mode@)),
                ("uptime_secs"@, JsonModel::UInt(f.uptime_secs)),
            ],
        ),
{
    proof {
        reveal_strlit("QUIC");
    }
    let mut entries = new_entries();
    push_entry(&mut entries, "node_id", JsonValue::from_str_slice(f.node_id.as_str()));
    push_entry(&mut entries, "connections", JsonValue::UInt(f.connections));
    push_entry(&mut entries, "unique_endpoints", JsonValue::UInt(f.unique_endpoints));
    push_entry(&mut entries, "transport_active", JsonValue::Bool(f.shard_transport_active));
    push_entry(&mut entries, "shard_transport_active", JsonValue::Bool(f.shard_transport_active));
    push_entry(&mut entries, "bytes_sent", JsonValue::UInt(0));
    push_entry(&mut entries, "bytes_received", JsonValue::UInt(0));
    push_entry(&mut entries, "protocol", JsonValue::from_str_slice("QUIC"));
    push_entry(&mut entries, "privacy_mode", JsonValue::from_str_slice(f.privacy_mode.as_str()));
    push_entry(&mut entries, "uptime_secs", JsonValue::UInt(f.uptime_secs));
    assert(crate::json::entry_models_of(entries@) =~= seq![
        ("node_id"@, JsonModel::Str(f.node_id@)),
        ("connections"@, JsonModel::UInt(f.connections)),
        ("unique_endpoints"@, JsonModel::UInt(f.unique_endpoints)),
        ("transport_active"@, JsonModel::Bool(f.shard_transport_active)),
        ("shard_transport_active"@, JsonModel::Bool(f.shard_transport_active)),
        ("bytes_sent"@, JsonModel::UInt(0)),
        ("bytes_received"@, JsonModel::UInt(0)),
        ("protocol"@, JsonModel::Str("QUIC"@)),
        ("privacy_mode"@, JsonModel::Str(f.privacy_mode@)),
        ("uptime_secs"@, JsonModel::UInt(f.uptime_secs)),
    ]);
    JsonValue::Object(entries)
}

pub open spec fn connection_json(p: PeerSummary) -> JsonModel {
    JsonModel::Object(
        seq![
            ("node_id"@, JsonModel::Str(p.node_id@)),
            ("address"@, JsonModel::Str(p.address@)),
            ("coordinate"@, coordinate_model(p.coordinate)),
            ("protocol"@, JsonModel::Str("QUIC"@)),
        ],
    )
}

pub open spec fn connections_reply_spec(peers: Option<Seq<PeerSummary>>) -> JsonModel {
    match peers {
        Some(ps) => JsonModel::Object(
            seq![
                ("count"@, JsonModel::UInt(ps.len() as u64)),
                (
                    "connections"@,
                    JsonModel::Array(ps.map_values(|p: PeerSummary| connection_json(p))),
                ),
            ],
        ),
        None => JsonModel::Object(
            seq![
                ("count"@, JsonModel::UInt(0)),
                ("connections"@, JsonModel::Array(Seq::empty())),
                ("note"@, JsonModel::Str("no network manager (private mode)"@)),
            ],
        ),
    }
}

/// Reply to `stoq.connections`: each open connection, or none and a note
/// on a private node.
pub fn stoq_connections_reply(peers: Option<&Vec<PeerSummary>>) -> (r: JsonValue)
    ensures
        r@ == connections_reply_spec(
            match peers {
                Some(v) => Some(v@),
                None => None,
            },
        ),
{
    proof {
        reveal_strlit("QUIC");
        reveal_strlit("no network manager (private mode)");
    }
    match peers {
        Some(ps) => {
            let mut items = new_items();
            let mut i: usize = 0;
            while i < ps.len()
                invariant
                    i <= ps@.len(),
                    models_of(items@) == ps@.take(i as int).map_values(
                        |p: PeerSummary| connection_json(p),
                    ),
                decreases ps@.len() - i,
            {
                let ghost before = models_of(items@);
                let p = &ps[i];
                let mut e = new_entries();
                push_entry(&mut e, "node_id", JsonValue::from_str_slice(p.node_id.as_str()));
                push_entry(&mut e, "address", JsonValue::from_str_slice(p.address.as_str()));
                push_entry(&mut e, "coordinate", coordinate_value(p.coordinate));
                push_entry(&mut e, "protocol", JsonValue::from_str_slice("QUIC"));
                assert(crate::json::entry_models_of(e@) =~= seq![
                    ("node_id"@, JsonModel::Str(p.node_id@)),
                    ("address"@, JsonModel::Str(p.address@)),
                    ("coordinate"@, coordinate_model(p.coordinate)),
                    ("protocol"@, JsonModel::Str("QUIC"@)),
                ]);
                push_item(&mut items, JsonValue::Object(e));
                assert(ps@.take(i + 1) =~= ps@.take(i as int).push(ps@[i as int]));
                assert(ps@.take(i + 1).map_values(|p: PeerSummary| connection_json(p)) =~= before.push(
                    connection_json(ps@[i as int]),
                ));
                i = i + 1;
            }
            assert(ps@.take(ps@.len() as int) =~= ps@);
            let mut entries = new_entries();
            push_entry(&mut entries, "count", JsonValue::UInt(ps.len() as u64));
            push_entry(&mut entries, "connections", JsonValue::Array(items));
            assert(crate::json::entry_models_of(entries@) =~= seq![
                ("count"@, JsonModel::UInt(ps@.len() as u64)),
                (
                    "connections"@,
                    JsonModel::Array(ps@.map_values(|p: PeerSummary| connection_json(p))),
                ),
            ]);
            JsonValue::Object(entries)
        },
        None => {
            let mut entries = new_entries();
            push_entry(&mut entries, "count", JsonValue::UInt(0));
            push_entry(&mut entries, "connections", JsonValue::Array(new_items()));
            push_entry(
                &mut entries,
                "note",
                JsonValue::from_str_slice("no network manager (private mode)"),
            );
            assert(crate::json::entry_models_of(entries@) =~= seq![
                ("count"@, JsonModel::UInt(0)),
                ("connections"@, JsonModel::Array(Seq::empty())),
                ("note"@, JsonModel::Str("no network manager (private mode)"@)),
            ]);
            JsonValue::Object(entries)
        },
    }
}

/// A zero that JSON shows as a fractional number.
pub open spec fn zero_float() -> JsonModel {
    JsonModel::Float("0.0"@)
}

fn zero_float_value() -> (r: JsonValue)
    ensures
        r@ == zero_float(),
{
    proof {
        reveal_strlit("0.0");
    }
    JsonValue::Float(String::from_str("0.0"))
}

/// Reply to `stoq.performance`; latency and throughput are not measured
/// yet and read 0.
pub fn stoq_performance_reply(node_id: &str, active_connections: u64, uptime_secs: u64) -> (r:
    JsonValue)
    ensures
        r@ == JsonModel::Object(
            seq![
                ("node_id"@, JsonModel::Str(node_id@)),
                ("active_connections"@, JsonModel::UInt(active_connections)),
                ("avg_latency_ms"@, zero_float()),
                ("min_latency_ms"@, zero_float()),
                ("max_latency_ms"@, zero_float()),
                ("throughput_bps"@, zero_float()),
                ("packet_loss_rate"@, zero_float()),
                ("congestion_window"@, JsonModel::UInt(0)),
                ("uptime_secs"@, JsonModel::UInt(uptime_secs)),
                ("status"@, JsonModel::Str("alpha"@)),
            ],
        ),
{
    proof {
        reveal_strlit("alpha");
    }
    let mut entries = new_entries();
    push_entry(&mut entries, "node_id", JsonValue::from_str_slice(node_id));
    push_entry(&mut entries, "active_connections", JsonValue::UInt(active_connections));
    push_entry(&mut entries, "avg_latency_ms", zero_float_value());
    push_entry(&mut entries, "min_latency_ms", zero_float_value());
    push_entry(&mut entries, "max_latency_ms", zero_float_value());
    push_entry(&mut entries, "throughput_bps", zero_float_value());
    push_entry(&mut entries, "packet_loss_rate", zero_float_value());
    push_entry(&mut entries, "congestion_window", JsonValue::UInt(0));
    push_entry(&mut entries, "uptime_secs", JsonValue::UInt(uptime_secs));
    push_entry(&mut entries, "status", JsonValue::from_str_slice("alpha"));
    assert(crate::json::entry_models_of(entries@) =~= seq![
        ("node_id"@, JsonModel::Str(node_id@)),
        ("active_connections"@, JsonModel::UInt(active_connections)),
        ("avg_latency_ms"@, zero_float()),
        ("min_latency_ms"@, zero_float()),
        ("max_latency_ms"@, zero_float()),
        ("throughput_bps"@, zero_float()),
        ("packet_loss_rate"@, zero_float()),
        ("congestion_window"@, JsonModel::UInt(0)),
        ("uptime_secs"@, JsonModel::UInt(uptime_secs)),
        ("status"@, JsonModel::Str("alpha"@)),
    ]);
    JsonValue::Object(entries)
}

/// Whether the analytics feature was built in and a bridge is attached.
#[derive(Debug)]
pub struct AnalyticsFlags {
    pub intelligence_enabled: bool,
    pub bridge_attached: bool,
}

/// Reply to `engauge.capacity`; storage and utilization figures are not
/// measured yet and read 0.
pub fn engauge_capacity_reply(
    node_id: &str,
    shards_stored: u64,
    peers_connected: u64,
    uptime_secs: u64,
    flags: AnalyticsFlags,
) -> (r: JsonValue)
    ensures
        r@ == JsonModel::Object(
            seq![
                ("node_id"@, JsonModel::Str(node_id@)),
                ("shards_stored"@, JsonModel::UInt(shards_stored)),
                ("peers_connected"@, JsonModel::UInt(peers_connected)),
                ("storage_used_bytes"@, JsonModel::UInt(0)),
                ("storage_capacity_bytes"@, JsonModel::UInt(0)),
                ("cpu_utilization"@, zero_float()),
                ("memory_utilization"@, zero_float()),
                ("uptime_secs"@, JsonModel::UInt(uptime_secs)),
                ("intelligence_enabled"@, JsonModel::Bool(flags.intelligence_enabled)),
                ("bridge_attached"@, JsonModel::Bool(flags.bridge_attached)),
            ],
        ),
{
    let mut entries = new_entries();
    push_entry(&mut entries, "node_id", JsonValue::from_str_slice(node_id));
    push_entry(&mut entries, "shards_stored", JsonValue::UInt(shards_stored));
    push_entry(&mut entries, "peers_connected", JsonValue::UInt(peers_connected));
    push_entry(&mut entries, "storage_used_bytes", JsonValue::UInt(0));
    push_entry(&mut entries, "storage_capacity_bytes", JsonValue::UInt(0));
    push_entry(&mut entries, "cpu_utilization", zero_float_value());
    push_entry(&mut entries, "memory_utilization", zero_float_value());
    push_entry(&mut entries, "uptime_secs", JsonValue::UInt(uptime_secs));
    push_entry(&mut entries, "intelligence_enabled", JsonValue::Bool(flags.intelligence_enabled));
    push_entry(&mut entries, "bridge_attached", JsonValue::Bool(flags.bridge_attached));
    assert(crate::json::entry_models_of(entries@) =~= seq![
        ("node_id"@, JsonModel::Str(node_id@)),
        ("shards_stored"@, JsonModel::UInt(shards_stored)),
        ("peers_connected"@, JsonModel::UInt(peers_connected)),
        ("storage_used_bytes"@, JsonModel::UInt(0)),
        ("storage_capacity_bytes"@, JsonModel::UInt(0)),
        ("cpu_utilization"@, zero_float()),
        ("memory_utilization"@, zero_float()),
        ("uptime_secs"@, JsonModel::UInt(uptime_secs)),
        ("intelligence_enabled"@, JsonModel::Bool(flags.intelligence_enabled)),
        ("bridge_attached"@, JsonModel::Bool(flags.bridge_attached)),
    ]);
    JsonValue::Object(entries)
}

/// Reply to `engauge.traffic`; traffic counters are not measured yet and
/// read 0. `tracked_shards` is how many transmit summaries the bridge
/// holds, reported under both names.
pub fn engauge_traffic_reply(
    node_id: &str,
    active_connections: u64,
    privacy_mode: &str,
    tracked_shards: u64,
    flags: AnalyticsFlags,
) -> (r: JsonValue)
    ensures
        r@ == JsonModel::Object(
            seq![
                ("node_id"@, JsonModel::Str(node_id@)),
                ("bytes_sent"@, JsonModel::UInt(0)),
                ("bytes_received"@, JsonModel::UInt(0)),
                ("requests_served"@, JsonModel::UInt(0)),
                ("requests_received"@, JsonModel::UInt(0)),
                ("active_connections"@, JsonModel::UInt(active_connections)),
                ("throughput_bps"@, zero_float()),
                ("privacy_mode"@, JsonModel::Str(privacy_mode@)),
                ("tracked_shards"@, JsonModel::UInt(tracked_shards)),
                ("transmit_summaries"@, JsonModel::UInt(tracked_shards)),
                ("intelligence_enabled"@, JsonModel::Bool(flags.intelligence_enabled)),
                ("bridge_attached"@, JsonModel::Bool(flags.bridge_attached)),
            ],
        ),
{
    let mut entries = new_entries();
    push_entry(&mut entries, "node_id", JsonValue::from_str_slice(node_id));
    push_entry(&mut entries, "bytes_sent", JsonValue::UInt(0));
    push_entry(&mut entries, "bytes_received", JsonValue::UInt(0));
    push_entry(&mut entries, "requests_served", JsonValue::UInt(0));
    push_entry(&mut entries, "requests_received", JsonValue::UInt(0));
    push_entry(&mut entries, "active_connections", JsonValue::UInt(active_connections));
    push_entry(&mut entries, "throughput_bps", zero_float_value());
    push_entry(&mut entries, "privacy_mode", JsonValue::from_str_slice(privacy_mode));
    push_entry(&mut entries, "tracked_shards", JsonValue::UInt(tracked_shards));
    push_entry(&mut entries, "transmit_summaries", JsonValue::UInt(tracked_shards));
    push_entry(&mut entries, "intelligence_enabled", JsonValue::Bool(flags.intelligence_enabled));
    push_entry(&mut entries, "bridge_attached", JsonValue::Bool(flags.bridge_attached));
    assert(crate::json::entry_models_of(entries@) =~= seq![
        ("node_id"@, JsonModel::Str(node_id@)),
        ("bytes_sent"@, JsonModel::UInt(0)),
        ("bytes_received"@, JsonModel::UInt(0)),
        ("requests_served"@, JsonModel::UInt(0)),
        ("requests_received"@, JsonModel::UInt(0)),
        ("active_connections"@, JsonModel::UInt(active_connections)),
        ("throughput_bps"@, zero_float()),
        ("privacy_mode"@, JsonModel::Str(privacy_mode@)),
        ("tracked_shards"@, JsonModel::UInt(tracked_shards)),
        ("transmit_summaries"@, JsonModel::UInt(tracked_shards)),
        ("intelligence_enabled"@, JsonModel::Bool(flags.intelligence_enabled)),
        ("bridge_attached"@, JsonModel::Bool(flags.bridge_attached)),
    ]);
    JsonValue::Object(entries)
}

/// Reply to `engauge.throttle`: nothing is throttled yet.
pub fn engauge_throttle_reply(node_id: &str, privacy_mode: &str, flags: AnalyticsFlags) -> (r:
    JsonValue)
    ensures
        r@ == JsonModel::Object(
            seq![
                ("node_id"@, JsonModel::Str(node_id@)),
                ("throttled"@, JsonModel::Bool(false)),
                ("current_rate_limit_rps"@, JsonModel::UInt(0)),
                ("backpressure_active"@, JsonModel::Bool(false)),
                ("queue_depth"@, JsonModel::UInt(0)),
                ("dropped_requests"@, JsonModel::UInt(0)),
                ("privacy_mode"@, JsonModel::Str(privacy_mode@)),
                ("intelligence_enabled"@, JsonModel::Bool(flags.intelligence_enabled)),
                ("bridge_attached"@, JsonModel::Bool(flags.bridge_attached)),
                (
                    "note"@,
                    JsonModel::Str(
                        "throttle signal plumbing pending — engauge MetricsIngestionPipeline→IPC"@,
                    ),
                ),
            ],
        ),
{
    proof {
        reveal_strlit("throttle signal plumbing pending — engauge MetricsIngestionPipeline→IPC");
    }
    let mut entries = new_entries();
    push_entry(&mut entries, "node_id", JsonValue::from_str_slice(node_id));
    push_entry(&mut entries, "throttled", JsonValue::Bool(false));
    push_entry(&mut entries, "current_rate_limit_rps", JsonValue::UInt(0));
    push_entry(&mut entries, "backpressure_active", JsonValue::Bool(false));
    push_entry(&mut entries, "queue_depth", JsonValue::UInt(0));
    push_entry(&mut entries, "dropped_requests", JsonValue::UInt(0));
    push_entry(&mut entries, "privacy_mode", JsonValue::from_str_slice(privacy_mode));
    push_entry(&mut entries, "intelligence_enabled", JsonValue::Bool(flags.intelligence_enabled));
    push_entry(&mut entries, "bridge_attached", JsonValue::Bool(flags.bridge_attached));
    push_entry(
        &mut entries,
        "note",
        JsonValue::from_str_slice(
            "throttle signal plumbing pending — engauge MetricsIngestionPipeline→IPC",
        ),
    );
    assert(crate::json::entry_models_of(entries@) =~= seq![
        ("node_id"@, JsonModel::Str(node_id@)),
        ("throttled"@, JsonModel::Bool(false)),
        ("current_rate_limit_rps"@, JsonModel::UInt(0)),
        ("backpressure_active"@, JsonModel::Bool(false)),
        ("queue_depth"@, JsonModel::UInt(0)),
        ("dropped_requests"@, JsonModel::UInt(0)),
        ("privacy_mode"@, JsonModel::Str(privacy_mode@)),
        ("intelligence_enabled"@, JsonModel::Bool(flags.intelligence_enabled)),
        ("bridge_attached"@, JsonModel::Bool(flags.bridge_attached)),
        (
            "note"@,
            JsonModel::Str("throttle signal plumbing pending — engauge MetricsIngestionPipeline→IPC"@),
        ),
    ]);
    JsonValue::Object(entries)
}

/// Reply to `engauge.routing`: this node's position and how many peers it
/// knows; no routing table is kept yet.
pub fn engauge_routing_reply(
    node_id: &str,
    coordinate: (i64, i64, i64),
    known_peers: u64,
    flags: AnalyticsFlags,
) -> (r: JsonValue)
    ensures
        r@ == JsonModel::Object(
            seq![
                ("node_id"@, JsonModel::Str(node_id@)),
                ("coordinate"@, coordinate_model(coordinate)),
                ("known_peers"@, JsonModel::UInt(known_peers)),
                ("routing_table_size"@, JsonModel::UInt(0)),
                ("preferred_paths"@, JsonModel::Array(Seq::empty())),
                ("weight_modifiers"@, JsonModel::Object(Seq::empty())),
                ("intelligence_enabled"@, JsonModel::Bool(flags.intelligence_enabled)),
                ("bridge_attached"@, JsonModel::Bool(flags.bridge_attached)),
            ],
        ),
{
    let mut entries = new_entries();
    push_entry(&mut entries, "node_id", JsonValue::from_str_slice(node_id));
    push_entry(&mut entries, "coordinate", coordinate_value(coordinate));
    push_entry(&mut entries, "known_peers", JsonValue::UInt(known_peers));
    push_entry(&mut entries, "routing_table_size", JsonValue::UInt(0));
    push_entry(&mut entries, "preferred_paths", JsonValue::Array(new_items()));
    push_entry(&mut entries, "weight_modifiers", JsonValue::empty_object());
    push_entry(&mut entries, "intelligence_enabled", JsonValue::Bool(flags.intelligence_enabled));
    push_entry(&mut entries, "bridge_attached", JsonValue::Bool(flags.bridge_attached));
    assert(crate::json::entry_models_of(entries@) =~= seq![
        ("node_id"@, JsonModel::Str(node_id@)),
        ("coordinate"@, coordinate_model(coordinate)),
        ("known_peers"@, JsonModel::UInt(known_peers)),
        ("routing_table_size"@, JsonModel::UInt(0)),
        ("preferred_paths"@, JsonModel::Array(Seq::empty())),
        ("weight_modifiers"@, JsonModel::Object(Seq::empty())),
        ("intelligence_enabled"@, JsonModel::Bool(flags.intelligence_enabled)),
        ("bridge_attached"@, JsonModel::Bool(flags.bridge_attached)),
    ]);
    JsonValue::Object(entries)
}

} // verus!
