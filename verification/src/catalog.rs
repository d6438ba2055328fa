//! Catalog search: the call's parameters, the merging of neighbours'
//! answers into the local matches, and the replies. Searching the local
//! registry and asking neighbours are the caller's.

use vstd::prelude::*;
use crate::codecs::{hex_decodable, hex_decode, hex_decoded, hex_error_text};
use crate::json::{
    JsonModel, JsonValue, json_as_bool, json_as_u64, json_get, json_get_str, models_of, push_entry,
    push_item,
};
use crate::protocol::{RpcError, INTERNAL_ERROR, INVALID_PARAMS, is_error};
use crate::text::{concat2, copy_string, str_eq, u64_to_decimal, decimal};

verus! {

/// Parameters of `catalog.search`.
#[derive(Debug)]
pub struct SearchParams {
    pub query: String,
    pub recursive: bool,
    pub max_neighbors: u64,
    pub timeout_ms: u64,
    pub limit: u64,
}

/// A boolean parameter with a default.
pub open spec fn bool_param(params: JsonModel, key: Seq<char>, default: bool) -> bool {
    match json_get(params, key) {
        Some(v) => match json_as_bool(v) {
            Some(b) => b,
            None => default,
        },
        None => default,
    }
}

/// A number parameter with a default.
pub open spec fn u64_param(params: JsonModel, key: Seq<char>, default: u64) -> u64 {
    match json_get(params, key) {
        Some(v) => match json_as_u64(v) {
            Some(n) => n,
            None => default,
        },
        None => default,
    }
}

fn read_bool(params: &JsonValue, key: &str, default: bool) -> (r: bool)
    ensures
        r == bool_param(params@, key@, default),
{
    match params.get(key) {
        Some(v) => match v.as_bool() {
            Some(b) => b,
            None => default,
        },
        None => default,
    }
}

fn read_u64(params: &JsonValue, key: &str, default: u64) -> (r: u64)
    ensures
        r == u64_param(params@, key@, default),
{
    match params.get(key) {
        Some(v) => match v.as_u64() {
            Some(n) => n,
            None => default,
        },
        None => default,
    }
}

/// Read the search parameters: `query` is required; `recursive` defaults
/// to false, `max_neighbors` to 8, `timeout_ms` to 2000 and `limit` to 50.
pub fn parse_search_params(params: &JsonValue) -> (r: Result<SearchParams, RpcError>)
    ensures
        match json_get_str(params@, "query"@) {
            None => r matches Err(e) && is_error(e, INVALID_PARAMS, "'query' (string) required"@),
            Some(q) => r matches Ok(p) && p.query@ == q && p.recursive == bool_param(
                params@,
                "recursive"@,
                false,
            ) && p.max_neighbors == u64_param(params@, "max_neighbors"@, 8) && p.timeout_ms
                == u64_param(params@, "timeout_ms"@, 2000) && p.limit == u64_param(
                params@,
                "limit"@,
                50,
            ),
        },
{
    let query = match params.get_str("query") {
        Some(q) => q,
        None => {
            proof {
                reveal_strlit("'query' (string) required");
            }
            return Err(RpcError::new(INVALID_PARAMS, String::from_str("'query' (string) required")));
        },
    };
    Ok(
        SearchParams {
            query: String::from_str(query),
            recursive: read_bool(params, "recursive", false),
            max_neighbors: read_u64(params, "max_neighbors", 8),
            timeout_ms: read_u64(params, "timeout_ms", 2000),
            limit: read_u64(params, "limit", 50),
        },
    )
}

/// One search match.
#[derive(Debug)]
pub struct SearchMatch {
    pub type_hash: String,
    pub name: String,
    pub version: String,
    pub source: String,
}

/// A row of a neighbour's answer.
#[derive(Debug)]
pub struct PeerRow {
    pub type_hash: String,
    pub name: String,
    pub version: String,
}

/// A neighbour's answer: its rows, or why it failed.
#[derive(Debug)]
pub enum PeerOutcome {
    Rows(Vec<PeerRow>),
    Failed(String),
}

/// Text view of a match: hash, name, version, source.
pub type MatchView = (Seq<char>, Seq<char>, Seq<char>, Seq<char>);

pub open spec fn match_view(m: SearchMatch) -> MatchView {
    (m.type_hash@, m.name@, m.version@, m.source@)
}

pub open spec fn matches_view(ms: Seq<SearchMatch>) -> Seq<MatchView> {
    ms.map_values(|m: SearchMatch| match_view(m))
}

/// Whether a hash is already among the matches.
pub open spec fn hash_seen(acc: Seq<MatchView>, hash: Seq<char>) -> bool {
    exists|i: int| 0 <= i < acc.len() && (#[trigger] acc[i]).0 == hash
}

/// Source label of a neighbour's match.
pub open spec fn neighbor_source(node: Seq<char>) -> Seq<char> {
    "neighbor:"@ + node
}

/// Add one neighbour row: rows without a hash, and rows whose hash is
/// already present, are skipped.
pub open spec fn merge_row(acc: Seq<MatchView>, node: Seq<char>, row: PeerRow) -> Seq<MatchView> {
    if row.type_hash@.len() == 0 || hash_seen(acc, row.type_hash@) {
        acc
    } else {
        acc.push((row.type_hash@, row.name@, row.version@, neighbor_source(node)))
    }
}

/// Add a neighbour's rows in order.
pub open spec fn merge_rows(acc: Seq<MatchView>, node: Seq<char>, rows: Seq<PeerRow>) -> Seq<MatchView>
    decreases rows.len(),
{
    if rows.len() == 0 {
        acc
    } else {
        merge_row(merge_rows(acc, node, rows.drop_last()), node, rows.last())
    }
}

/// Add every successful neighbour's rows, neighbour by neighbour.
pub open spec fn merge_peers(acc: Seq<MatchView>, peers: Seq<(String, PeerOutcome)>) -> Seq<MatchView>
    decreases peers.len(),
{
    if peers.len() == 0 {
        acc
    } else {
        let before = merge_peers(acc, peers.drop_last());
        match peers.last().1 {
            PeerOutcome::Rows(rows) => merge_rows(before, peers.last().0@, rows@),
            PeerOutcome::Failed(_) => before,
        }
    }
}

/// The `(node, error)` pairs of the failed neighbours, in order.
pub open spec fn peer_errors(peers: Seq<(String, PeerOutcome)>) -> Seq<(Seq<char>, Seq<char>)>
    decreases peers.len(),
{
    if peers.len() == 0 {
        Seq::empty()
    } else {
        let before = peer_errors(peers.drop_last());
        match peers.last().1 {
            PeerOutcome::Rows(_) => before,
            PeerOutcome::Failed(e) => before.push((peers.last().0@, e@)),
        }
    }
}

fn hash_present(acc: &Vec<SearchMatch>, hash: &str) -> (r: bool)
    ensures
        r == hash_seen(matches_view(acc@), hash@),
{
    let ghost v = matches_view(acc@);
    let mut i: usize = 0;
    while i < acc.len()
        invariant
            i <= acc@.len(),
            v == matches_view(acc@),
            v.len() == acc@.len(),
            forall|j: int| 0 <= j < i ==> (#[trigger] v[j]).0 != hash@,
        decreases acc@.len() - i,
    {
        assert(v[i as int] == match_view(acc@[i as int]));
        if str_eq(acc[i].type_hash.as_str(), hash) {
            return true;
        }
        i = i + 1;
    }
    false
}

fn merge_rows_into(acc: &mut Vec<SearchMatch>, node: &str, rows: Vec<PeerRow>)
    ensures
        matches_view(final(acc)@) == merge_rows(matches_view(old(acc)@), node@, rows@),
{
    let ghost all = rows@;
    let ghost start = matches_view(acc@);
    let n = rows.len();
    let mut rest = rows;
    let mut k: usize = 0;
    while rest.len() > 0
        invariant
            k <= all.len(),
            all.len() == n,
            rest@ == all.skip(k as int),
            matches_view(acc@) == merge_rows(start, node@, all.take(k as int)),
        decreases rest@.len(),
    {
        let row = rest.remove(0);
        assert(all.take(k + 1).drop_last() =~= all.take(k as int));
        assert(all[k as int] == row);
        let ghost before = matches_view(acc@);
        if !row.type_hash.as_str().is_empty() && !hash_present(acc, row.type_hash.as_str()) {
            let source = concat2("neighbor:", node);
            proof {
                reveal_strlit("neighbor:");
            }
            acc.push(
                SearchMatch {
                    type_hash: row.type_hash,
                    name: row.name,
                    version: row.version,
                    source,
                },
            );
            assert(matches_view(acc@) =~= before.push(
                (row.type_hash@, row.name@, row.version@, neighbor_source(node@)),
            ));
        }
        k = k + 1;
        assert(rest@ =~= all.skip(k as int));
    }
    assert(all.take(all.len() as int) =~= all);
}

/// Merge the neighbours' answers into the local matches: successful rows
/// are added by `merge_peers`, failures are collected in order.
pub fn merge_search_results(
    local: Vec<SearchMatch>,
    peers: Vec<(String, PeerOutcome)>,
) -> (r: (Vec<SearchMatch>, Vec<(String, String)>))
    ensures
        matches_view(r.0@) == merge_peers(matches_view(local@), peers@),
        r.1@.map_values(|p: (String, String)| (p.0@, p.1@)) == peer_errors(peers@),
{
    let ghost all = peers@;
    let ghost start = matches_view(local@);
    let n = peers.len();
    let mut acc = local;
    let mut errors: Vec<(String, String)> = Vec::new();
    let mut rest = peers;
    let mut k: usize = 0;
    while rest.len() > 0
        invariant
            k <= all.len(),
            all.len() == n,
            rest@ == all.skip(k as int),
            matches_view(acc@) == merge_peers(start, all.take(k as int)),
            errors@.map_values(|p: (String, String)| (p.0@, p.1@)) == peer_errors(all.take(k as int)),
        decreases rest@.len(),
    {
        let (node, outcome) = rest.remove(0);
        assert(all.take(k + 1).drop_last() =~= all.take(k as int));
        assert(all[k as int] == (node, outcome));
        match outcome {
            PeerOutcome::Rows(rows) => {
                merge_rows_into(&mut acc, node.as_str(), rows);
            },
            PeerOutcome::Failed(e) => {
                let ghost before = errors@;
                errors.push((node, e));
                assert(errors@.map_values(|p: (String, String)| (p.0@, p.1@)) =~= before.map_values(
                    |p: (String, String)| (p.0@, p.1@),
                ).push((errors@.last().0@, errors@.last().1@)));
            },
        }
        k = k + 1;
        assert(rest@ =~= all.skip(k as int));
    }
    assert(all.take(all.len() as int) =~= all);
    (acc, errors)
}

/// JSON of a match.
pub open spec fn match_json(m: MatchView) -> JsonModel {
    JsonModel::Object(
        seq![
            ("type_hash"@, JsonModel::Str(m.0)),
            ("name"@, JsonModel::Str(m.1)),
            ("version"@, JsonModel::Str(m.2)),
            ("source"@, JsonModel::Str(m.3)),
        ],
    )
}

/// JSON of a neighbour failure.
pub open spec fn error_json(e: (Seq<char>, Seq<char>)) -> JsonModel {
    JsonModel::Object(seq![("node_id"@, JsonModel::Str(e.0)), ("error"@, JsonModel::Str(e.1))])
}

fn match_to_json(m: &SearchMatch) -> (r: JsonValue)
    ensures
        r@ == match_json(match_view(*m)),
{
    let mut entries: Vec<(String, JsonValue)> = Vec::new();
    proof {
        crate::json::lemma_entry_models_of_len(entries@);
        assert(crate::json::entry_models_of(entries@) =~= Seq::empty());
    }
    push_entry(&mut entries, "type_hash", JsonValue::Str(copy_string(&m.type_hash)));
    push_entry(&mut entries, "name", JsonValue::Str(copy_string(&m.name)));
    push_entry(&mut entries, "version", JsonValue::Str(copy_string(&m.version)));
    push_entry(&mut entries, "source", JsonValue::Str(copy_string(&m.source)));
    assert(crate::json::entry_models_of(entries@) =~= seq![
        ("type_hash"@, JsonModel::Str(m.type_hash@)),
        ("name"@, JsonModel::Str(m.name@)),
        ("version"@, JsonModel::Str(m.version@)),
        ("source"@, JsonModel::Str(m.source@)),
    ]);
    JsonValue::Object(entries)
}

fn matches_to_json(ms: &Vec<SearchMatch>) -> (r: JsonValue)
    ensures
        r@ == JsonModel::Array(matches_view(ms@).map_values(|m: MatchView| match_json(m))),
{
    let mut items: Vec<JsonValue> = Vec::new();
    proof {
        crate::json::lemma_models_of_len(items@);
        assert(models_of(items@) =~= Seq::empty());
    }
    let mut i: usize = 0;
    while i < ms.len()
        invariant
            i <= ms@.len(),
            models_of(items@) == matches_view(ms@.take(i as int)).map_values(
                |m: MatchView| match_json(m),
            ),
        decreases ms@.len() - i,
    {
        let ghost before = models_of(items@);
        push_item(&mut items, match_to_json(&ms[i]));
        assert(matches_view(ms@.take(i + 1)).map_values(|m: MatchView| match_json(m)) =~= before.push(
            match_json(match_view(ms@[i as int])),
        ));
        i = i + 1;
    }
    assert(ms@.take(ms@.len() as int) =~= ms@);
    JsonValue::Array(items)
}

fn errors_to_json(es: &Vec<(String, String)>) -> (r: JsonValue)
    ensures
        r@ == JsonModel::Array(
            es@.map_values(|p: (String, String)| (p.0@, p.1@)).map_values(
                |e: (Seq<char>, Seq<char>)| error_json(e),
            ),
        ),
{
    let mut items: Vec<JsonValue> = Vec::new();
    proof {
        crate::json::lemma_models_of_len(items@);
        assert(models_of(items@) =~= Seq::empty());
    }
    let mut i: usize = 0;
    while i < es.len()
        invariant
            i <= es@.len(),
            models_of(items@) == es@.take(i as int).map_values(
                |p: (String, String)| (p.0@, p.1@),
            ).map_values(|e: (Seq<char>, Seq<char>)| error_json(e)),
        decreases es@.len() - i,
    {
        let ghost before = models_of(items@);
        let mut entries: Vec<(String, JsonValue)> = Vec::new();
        proof {
            crate::json::lemma_entry_models_of_len(entries@);
            assert(crate::json::entry_models_of(entries@) =~= Seq::empty());
        }
        push_entry(&mut entries, "node_id", JsonValue::Str(copy_string(&es[i].0)));
        push_entry(&mut entries, "error", JsonValue::Str(copy_string(&es[i].1)));
        assert(crate::json::entry_models_of(entries@) =~= seq![
            ("node_id"@, JsonModel::Str(es@[i as int].0@)),
            ("error"@, JsonModel::Str(es@[i as int].1@)),
        ]);
        push_item(&mut items, JsonValue::Object(entries));
        assert(es@.take(i + 1).map_values(|p: (String, String)| (p.0@, p.1@)).map_values(
            |e: (Seq<char>, Seq<char>)| error_json(e),
        ) =~= before.push(error_json((es@[i as int].0@, es@[i as int].1@))));
        i = i + 1;
    }
    assert(es@.take(es@.len() as int) =~= es@);
    JsonValue::Array(items)
}

/// The search reply: status, query, matches, their number, how many
/// neighbours were asked, and the neighbours that failed.
pub open spec fn search_reply_spec(
    query: Seq<char>,
    ms: Seq<MatchView>,
    neighbors_queried: u64,
    errors: Seq<(Seq<char>, Seq<char>)>,
) -> JsonModel {
    JsonModel::Object(
        seq![
            ("status"@, JsonModel::Str("ok"@)),
            ("query"@, JsonModel::Str(query)),
            ("matches"@, JsonModel::Array(ms.map_values(|m: MatchView| match_json(m)))),
            ("total"@, JsonModel::UInt(ms.len() as u64)),
            ("neighbors_queried"@, JsonModel::UInt(neighbors_queried)),
            ("neighbor_errors"@, JsonModel::Array(errors.map_values(|e: (Seq<char>, Seq<char>)| error_json(e)))),
        ],
    )
}

/// Build the search reply (see `search_reply_spec`).
pub fn search_reply(
    query: &str,
    ms: &Vec<SearchMatch>,
    neighbors_queried: u64,
    errors: &Vec<(String, String)>,
) -> (r: JsonValue)
    ensures
        r@ == search_reply_spec(
            query@,
            matches_view(ms@),
            neighbors_queried,
            errors@.map_values(|p: (String, String)| (p.0@, p.1@)),
        ),
{
    proof {
        reveal_strlit("ok");
    }
    let mut entries: Vec<(String, JsonValue)> = Vec::new();
    proof {
        crate::json::lemma_entry_models_of_len(entries@);
        assert(crate::json::entry_models_of(entries@) =~= Seq::empty());
    }
    push_entry(&mut entries, "status", JsonValue::from_str_slice("ok"));
    push_entry(&mut entries, "query", JsonValue::from_str_slice(query));
    push_entry(&mut entries, "matches", matches_to_json(ms));
    push_entry(&mut entries, "total", JsonValue::UInt(ms.len() as u64));
    push_entry(&mut entries, "neighbors_queried", JsonValue::UInt(neighbors_queried));
    push_entry(&mut entries, "neighbor_errors", errors_to_json(errors));
    let ghost ev = errors@.map_values(|p: (String, String)| (p.0@, p.1@));
    assert(crate::json::entry_models_of(entries@) =~= seq![
        ("status"@, JsonModel::Str("ok"@)),
        ("query"@, JsonModel::Str(query@)),
        ("matches"@, JsonModel::Array(matches_view(ms@).map_values(|m: MatchView| match_json(m)))),
        ("total"@, JsonModel::UInt(matches_view(ms@).len() as u64)),
        ("neighbors_queried"@, JsonModel::UInt(neighbors_queried)),
        ("neighbor_errors"@, JsonModel::Array(ev.map_values(|e: (Seq<char>, Seq<char>)| error_json(e)))),
    ]);
    JsonValue::Object(entries)
}

/// The reply when no catalog registry is wired: an empty result, never an
/// invented one.
pub fn registry_not_wired_reply(query: &str) -> (r: JsonValue)
    ensures
        r@ == JsonModel::Object(
            seq![
                ("status"@, JsonModel::Str("alpha"@)),
                ("note"@, JsonModel::Str("catalog registry not wired"@)),
                ("query"@, JsonModel::Str(query@)),
                ("matches"@, JsonModel::Array(Seq::empty())),
                ("total"@, JsonModel::UInt(0)),
                ("neighbors_queried"@, JsonModel::UInt(0)),
                ("neighbor_errors"@, JsonModel::Array(Seq::empty())),
            ],
        ),
{
    proof {
        reveal_strlit("alpha");
        reveal_strlit("catalog registry not wired");
    }
    let mut entries: Vec<(String, JsonValue)> = Vec::new();
    proof {
        crate::json::lemma_entry_models_of_len(entries@);
        assert(crate::json::entry_models_of(entries@) =~= Seq::empty());
    }
    let empty1: Vec<JsonValue> = Vec::new();
    let empty2: Vec<JsonValue> = Vec::new();
    proof {
        assert(models_of(empty1@) =~= Seq::empty());
        assert(models_of(empty2@) =~= Seq::empty());
    }
    push_entry(&mut entries, "status", JsonValue::from_str_slice("alpha"));
    push_entry(&mut entries, "note", JsonValue::from_str_slice("catalog registry not wired"));
    push_entry(&mut entries, "query", JsonValue::from_str_slice(query));
    push_entry(&mut entries, "matches", JsonValue::Array(empty1));
    push_entry(&mut entries, "total", JsonValue::UInt(0));
    push_entry(&mut entries, "neighbors_queried", JsonValue::UInt(0));
    push_entry(&mut entries, "neighbor_errors", JsonValue::Array(empty2));
    assert(crate::json::entry_models_of(entries@) =~= seq![
        ("status"@, JsonModel::Str("alpha"@)),
        ("note"@, JsonModel::Str("catalog registry not wired"@)),
        ("query"@, JsonModel::Str(query@)),
        ("matches"@, JsonModel::Array(Seq::empty())),
        ("total"@, JsonModel::UInt(0)),
        ("neighbors_queried"@, JsonModel::UInt(0)),
        ("neighbor_errors"@, JsonModel::Array(Seq::empty())),
    ]);
    JsonValue::Object(entries)
}

/// Error for a failed local search.
pub fn local_search_failed(detail: &str) -> (r: RpcError)
    ensures
        is_error(r, INTERNAL_ERROR, "local search failed: "@ + detail@),
{
    proof {
        reveal_strlit("local search failed: ");
    }
    RpcError::new(INTERNAL_ERROR, concat2("local search failed: ", detail))
}

/// Message for a type hash of the wrong length.
pub open spec fn hash_length_message(n: nat) -> Seq<char> {
    "type_hash must be 64 hex chars (BLAKE3-256), got "@ + decimal(n)
}

/// Length of a text in UTF-8 bytes, as `str::len` reports it.
pub open spec fn byte_len(s: &str) -> usize {
    vstd::utf8::encode_utf8(s@).len() as usize
}

/// Parse a 64-character hex type hash into its bytes; any other length,
/// counted in bytes, is refused, as is text that is not hex.
pub fn parse_content_hash_hex(hex_str: &str) -> (r: Result<Vec<u8>, RpcError>)
    ensures
        byte_len(hex_str) != 64 ==> (r matches Err(e) && is_error(
            e,
            INVALID_PARAMS,
            hash_length_message(byte_len(hex_str) as nat),
        )),
        byte_len(hex_str) == 64 && !hex_decodable(vstd::utf8::encode_utf8(hex_str@)) ==> (
        r matches Err(e) && is_error(
            e,
            INVALID_PARAMS,
            "invalid hex in type_hash: "@ + hex_error_text(hex_str@),
        )),
        byte_len(hex_str) == 64 && hex_decodable(vstd::utf8::encode_utf8(hex_str@)) ==> (
        r matches Ok(v) && v@ == hex_decoded(vstd::utf8::encode_utf8(hex_str@))),
{
    let n = hex_str.len();
    if n != 64 {
        let digits = u64_to_decimal(n as u64);
        proof {
            reveal_strlit("type_hash must be 64 hex chars (BLAKE3-256), got ");
        }
        return Err(
            RpcError::new(
                INVALID_PARAMS,
                concat2("type_hash must be 64 hex chars (BLAKE3-256), got ", digits.as_str()),
            ),
        );
    }
    match hex_decode(hex_str) {
        Ok(v) => Ok(v),
        Err(e) => {
            proof {
                reveal_strlit("invalid hex in type_hash: ");
            }
            Err(RpcError::new(INVALID_PARAMS, concat2("invalid hex in type_hash: ", e.as_str())))
        },
    }
}

/// Merging keeps the local matches first and unchanged, and every match it
/// adds has a non-empty hash that no earlier match has.
pub proof fn law_merge_keeps_local_and_dedups(acc: Seq<MatchView>, peers: Seq<(String, PeerOutcome)>)
    ensures
        merge_peers(acc, peers).len() >= acc.len(),
        merge_peers(acc, peers).take(acc.len() as int) == acc,
        forall|i: int|
            acc.len() <= i < merge_peers(acc, peers).len() ==> (#[trigger] merge_peers(acc, peers)[i]).0.len()
                > 0 && !hash_seen(merge_peers(acc, peers).take(i), merge_peers(acc, peers)[i].0),
    decreases peers.len(),
{
    if peers.len() > 0 {
        law_merge_keeps_local_and_dedups(acc, peers.drop_last());
        let before = merge_peers(acc, peers.drop_last());
        match peers.last().1 {
            PeerOutcome::Rows(rows) => {
                lemma_merge_rows_extends(before, peers.last().0@, rows@);
                let after = merge_rows(before, peers.last().0@, rows@);
                assert(after.take(acc.len() as int) =~= before.take(acc.len() as int));
                assert forall|i: int| acc.len() <= i < after.len() implies (#[trigger] after[i]).0.len()
                    > 0 && !hash_seen(after.take(i), after[i].0) by {
                    if i < before.len() {
                        assert(after.take(i) =~= before.take(i));
                        assert(after[i] == before[i]);
                    }
                }
            },
            PeerOutcome::Failed(_) => {},
        }
    }
}

/// Adding rows only appends, and each appended match has a fresh,
/// non-empty hash.
pub proof fn lemma_merge_rows_extends(acc: Seq<MatchView>, node: Seq<char>, rows: Seq<PeerRow>)
    ensures
        merge_rows(acc, node, rows).len() >= acc.len(),
        merge_rows(acc, node, rows).take(acc.len() as int) == acc,
        forall|i: int|
            acc.len() <= i < merge_rows(acc, node, rows).len() ==> (#[trigger] merge_rows(
                acc,
                node,
                rows,
            )[i]).0.len() > 0 && !hash_seen(merge_rows(acc, node, rows).take(i), merge_rows(acc, node, rows)[i].0),
    decreases rows.len(),
{
    if rows.len() > 0 {
        lemma_merge_rows_extends(acc, node, rows.drop_last());
        let before = merge_rows(acc, node, rows.drop_last());
        let after = merge_rows(acc, node, rows);
        assert(after == merge_row(before, node, rows.last()));
        if after.len() > before.len() {
            assert(after =~= before.push(after.last()));
            assert(after.take(acc.len() as int) =~= before.take(acc.len() as int));
            assert(after.take(before.len() as int) =~= before);
            assert forall|i: int| acc.len() <= i < after.len() implies (#[trigger] after[i]).0.len() > 0
                && !hash_seen(after.take(i), after[i].0) by {
                if i < before.len() {
                    assert(after.take(i) =~= before.take(i));
                    assert(after[i] == before[i]);
                }
            }
        }
    } else {
        assert(acc.take(acc.len() as int) =~= acc);
    }
}

} // verus!
