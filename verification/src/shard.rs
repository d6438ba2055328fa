//! Shard lookup (`shard.fetch`): the shard id, which connected peers are
//! asked and in what order, how providers learned from upstream trackers
//! are merged, the content check on a fetched shard, and whether a
//! registration delivered with it may be anchored on this node's chain.

use vstd::prelude::*;
use vstd::utf8::encode_utf8;
use crate::codecs::{
    blake3_digest, blake3_hash, hex_decodable, hex_decode, hex_decoded, hex_encode, hex_error_text,
    hex_text,
};
use crate::json::{JsonModel, JsonValue, json_get_str, new_entries, push_entry};
use crate::network::{short_cut_ok, short_id, short_id_spec};
use crate::protocol::{RpcError, INVALID_PARAMS, is_error};
use crate::text::{concat2, concat3, str_eq};

verus! {

/// Code of the error for a shard found nowhere.
pub const SHARD_NOT_FOUND: i64 = -32001;

/// At most this many peers are asked for a shard in one pass.
pub const MAX_FETCH_PEERS: usize = 6;

/// At most this many upstream trackers are asked who holds a shard.
pub const MAX_UPSTREAM_HOPS: usize = 2;

/// Outcome of reading the `shard_id` parameter: 32 bytes given in hex.
pub open spec fn shard_id_spec(params: JsonModel) -> Result<Seq<u8>, Seq<char>> {
    match json_get_str(params, "shard_id"@) {
        None => Err("missing 'shard_id' parameter"@),
        Some(h) => if !hex_decodable(encode_utf8(h)) {
            Err("invalid shard_id hex: "@ + hex_error_text(h))
        } else if hex_decoded(encode_utf8(h)).len() != 32 {
            Err("shard_id must be 32 bytes"@)
        } else {
            Ok(hex_decoded(encode_utf8(h)))
        },
    }
}

/// Read the shard id of a `shard.fetch` call (see `shard_id_spec`).
pub fn parse_shard_id(params: &JsonValue) -> (r: Result<Vec<u8>, RpcError>)
    ensures
        match shard_id_spec(params@) {
            Ok(id) => r matches Ok(v) && v@ == id,
            Err(msg) => r matches Err(e) && is_error(e, INVALID_PARAMS, msg),
        },
{
    proof {
        reveal_strlit("missing 'shard_id' parameter");
        reveal_strlit("invalid shard_id hex: ");
        reveal_strlit("shard_id must be 32 bytes");
    }
    let h = match params.get_str("shard_id") {
        Some(h) => h,
        None => {
            return Err(RpcError::new(INVALID_PARAMS, String::from_str("missing 'shard_id' parameter")));
        },
    };
    let bytes = match hex_decode(h) {
        Ok(b) => b,
        Err(e) => {
            return Err(RpcError::new(INVALID_PARAMS, concat2("invalid shard_id hex: ", e.as_str())));
        },
    };
    if bytes.len() != 32 {
        return Err(RpcError::new(INVALID_PARAMS, String::from_str("shard_id must be 32 bytes")));
    }
    Ok(bytes)
}

pub open spec fn names_view(v: Seq<String>) -> Seq<Seq<char>> {
    v.map_values(|s: String| s@)
}

/// Positions, in order, of the ids that are (`wanted`) or are not
/// (`!wanted`) among `known`.
pub open spec fn positions_where(ids: Seq<Seq<char>>, known: Seq<Seq<char>>, wanted: bool) -> Seq<int>
    decreases ids.len(),
{
    if ids.len() == 0 {
        Seq::empty()
    } else {
        let rest = positions_where(ids.drop_last(), known, wanted);
        if known.contains(ids.last()) == wanted {
            rest.push(ids.len() - 1)
        } else {
            rest
        }
    }
}

/// The order in which connected peers are asked for a shard: the known
/// providers first, then everyone else, each group in connection order,
/// at most `MAX_FETCH_PEERS` in all. Positions index `ids`.
pub open spec fn fetch_order_spec(ids: Seq<Seq<char>>, known: Seq<Seq<char>>) -> Seq<int> {
    let all = positions_where(ids, known, true) + positions_where(ids, known, false);
    all.take(if all.len() < MAX_FETCH_PEERS { all.len() as int } else { MAX_FETCH_PEERS as int })
}

proof fn lemma_positions_step(ids: Seq<Seq<char>>, known: Seq<Seq<char>>, wanted: bool, i: int)
    requires
        0 <= i < ids.len(),
    ensures
        positions_where(ids.take(i + 1), known, wanted) == (if known.contains(ids[i]) == wanted {
            positions_where(ids.take(i), known, wanted).push(i)
        } else {
            positions_where(ids.take(i), known, wanted)
        }),
{
    assert(ids.take(i + 1).drop_last() =~= ids.take(i));
}

fn contains_name(names: &Vec<String>, name: &str) -> (r: bool)
    ensures
        r == names_view(names@).contains(name@),
{
    let ghost view = names_view(names@);
    let mut i: usize = 0;
    while i < names.len()
        invariant
            i <= names@.len(),
            view == names_view(names@),
            forall|k: int| 0 <= k < i ==> view[k] != name@,
        decreases names@.len() - i,
    {
        if str_eq(names[i].as_str(), name) {
            assert(view[i as int] == name@);
            return true;
        }
        i = i + 1;
    }
    false
}

/// Positions of the peers in `ids` that are (`wanted`) or are not among
/// `known`, in order.
pub fn positions_matching(ids: &Vec<String>, known: &Vec<String>, wanted: bool) -> (r: Vec<usize>)
    ensures
        r@.map_values(|p: usize| p as int) == positions_where(names_view(ids@), names_view(known@), wanted),
{
    let ghost iv = names_view(ids@);
    let ghost kv = names_view(known@);
    let mut out: Vec<usize> = Vec::new();
    let mut i: usize = 0;
    proof {
        assert(iv.take(0) =~= Seq::<Seq<char>>::empty());
        assert(out@.map_values(|p: usize| p as int) =~= Seq::<int>::empty());
    }
    while i < ids.len()
        invariant
            i <= ids@.len(),
            iv == names_view(ids@),
            kv == names_view(known@),
            out@.map_values(|p: usize| p as int) == positions_where(iv.take(i as int), kv, wanted),
        decreases ids@.len() - i,
    {
        proof {
            lemma_positions_step(iv, kv, wanted, i as int);
        }
        let is_known = contains_name(known, ids[i].as_str());
        if is_known == wanted {
            let ghost before = out@.map_values(|p: usize| p as int);
            out.push(i);
            assert(out@.map_values(|p: usize| p as int) =~= before.push(i as int));
        }
        i = i + 1;
    }
    assert(iv.take(ids@.len() as int) =~= iv);
    out
}

/// The peers, by position in `ids`, to ask for a shard, in the order to
/// ask them (see `fetch_order_spec`).
pub fn fetch_order(ids: &Vec<String>, known: &Vec<String>) -> (r: Vec<usize>)
    ensures
        r@.map_values(|p: usize| p as int) == fetch_order_spec(names_view(ids@), names_view(known@)),
{
    let first = positions_matching(ids, known, true);
    let rest = positions_matching(ids, known, false);
    let ghost all = positions_where(names_view(ids@), names_view(known@), true) + positions_where(
        names_view(ids@),
        names_view(known@),
        false,
    );
    let mut out: Vec<usize> = Vec::new();
    let mut i: usize = 0;
    while i < first.len() && out.len() < MAX_FETCH_PEERS
        invariant
            i <= first@.len(),
            out@.len() == i,
            out@.len() <= MAX_FETCH_PEERS,
            out@.map_values(|p: usize| p as int) == all.take(i as int),
            all == first@.map_values(|p: usize| p as int) + rest@.map_values(|p: usize| p as int),
        decreases first@.len() - i,
    {
        let ghost before = out@.map_values(|p: usize| p as int);
        out.push(first[i]);
        assert(all.take(i + 1) =~= all.take(i as int).push(all[i as int]));
        assert(out@.map_values(|p: usize| p as int) =~= before.push(first@[i as int] as int));
        i = i + 1;
    }
    let mut j: usize = 0;
    while j < rest.len() && out.len() < MAX_FETCH_PEERS
        invariant
            j <= rest@.len(),
            out@.len() <= MAX_FETCH_PEERS,
            all == first@.map_values(|p: usize| p as int) + rest@.map_values(|p: usize| p as int),
            (out@.len() < MAX_FETCH_PEERS ==> i == first@.len()),
            j > 0 ==> i == first@.len(),
            out@.len() == i + j,
            i <= first@.len(),
            out@.map_values(|p: usize| p as int) == all.take(i + j),
        decreases rest@.len() - j,
    {
        let ghost before = out@.map_values(|p: usize| p as int);
        out.push(rest[j]);
        assert(all[i + j] == rest@[j as int] as int);
        assert(all.take(i + j + 1) =~= all.take(i + j).push(all[i + j]));
        assert(out@.map_values(|p: usize| p as int) =~= before.push(rest@[j as int] as int));
        j = j + 1;
    }
    assert(out@.map_values(|p: usize| p as int) =~= fetch_order_spec(
        names_view(ids@),
        names_view(known@),
    ));
    out
}

/// `merged` extended by the `answers` that are neither `known` nor
/// already there, in the order they come.
pub open spec fn merge_providers_spec(
    merged: Seq<Seq<char>>,
    answers: Seq<Seq<char>>,
    known: Seq<Seq<char>>,
) -> Seq<Seq<char>>
    decreases answers.len(),
{
    if answers.len() == 0 {
        merged
    } else {
        let m = merge_providers_spec(merged, answers.drop_last(), known);
        let a = answers.last();
        if known.contains(a) || m.contains(a) {
            m
        } else {
            m.push(a)
        }
    }
}

/// Add to `merged` the providers an upstream tracker named that are not
/// `known` and not in `merged` yet (see `merge_providers_spec`).
pub fn merge_providers(merged: &mut Vec<String>, answers: &Vec<String>, known: &Vec<String>)
    ensures
        names_view(final(merged)@) == merge_providers_spec(
            names_view(old(merged)@),
            names_view(answers@),
            names_view(known@),
        ),
{
    let ghost m0 = names_view(merged@);
    let ghost av = names_view(answers@);
    let ghost kv = names_view(known@);
    let mut i: usize = 0;
    proof {
        assert(av.take(0) =~= Seq::<Seq<char>>::empty());
    }
    while i < answers.len()
        invariant
            i <= answers@.len(),
            av == names_view(answers@),
            kv == names_view(known@),
            names_view(merged@) == merge_providers_spec(m0, av.take(i as int), kv),
        decreases answers@.len() - i,
    {
        proof {
            assert(av.take(i + 1).drop_last() =~= av.take(i as int));
        }
        let a = answers[i].as_str();
        if !contains_name(known, a) && !contains_name(merged, a) {
            let ghost before = names_view(merged@);
            merged.push(String::from_str(a));
            assert(names_view(merged@) =~= before.push(a@));
        }
        i = i + 1;
    }
    assert(av.take(answers@.len() as int) =~= av);
}

/// Whether two byte strings are equal.
pub fn bytes_eq(a: &[u8], b: &[u8]) -> (r: bool)
    ensures
        r == (a@ == b@),
{
    if a.len() != b.len() {
        return false;
    }
    let mut i: usize = 0;
    while i < a.len()
        invariant
            i <= a@.len(),
            a@.len() == b@.len(),
            forall|k: int| 0 <= k < i ==> a@[k] == b@[k],
        decreases a@.len() - i,
    {
        if a[i] != b[i] {
            return false;
        }
        i = i + 1;
    }
    assert(a@ =~= b@);
    true
}

/// Whether a shard a peer sent may be used: it is not empty and hashes,
/// under BLAKE3, to the id it was asked for.
pub fn shard_content_ok(data: &[u8], shard_id: &[u8]) -> (r: bool)
    ensures
        r == (data@.len() > 0 && blake3_digest(data@) == shard_id@),
{
    if data.len() == 0 {
        return false;
    }
    let h = blake3_hash(data);
    bytes_eq(h.as_slice(), shard_id)
}

/// What becomes of a registration a peer delivered with a shard.
#[derive(PartialEq, Eq, Structural, Clone, Copy, Debug)]
pub enum RegistrationVerdict {
    /// The shard is already authorized here: nothing is added.
    AlreadyAuthorized,
    /// Its proof is not bound to its own asset: refused.
    NotContentBound,
    /// It does not list the fetched shard: refused.
    DoesNotCover,
    /// Anchor it as a new block on this node's chain.
    Register,
}

/// Whether a list of shard hashes holds `shard_id`.
pub open spec fn covers_shard_spec(shard_hashes: Seq<Seq<u8>>, shard_id: Seq<u8>) -> bool {
    shard_hashes.contains(shard_id)
}

/// The verdict on a delivered registration, checked in this order: already
/// authorized, bound to its content, covering the shard. `shard_hashes`
/// is `None` when the registration does not point at shards at all.
pub open spec fn registration_verdict_spec(
    already_authorized: bool,
    content_bound: bool,
    shard_hashes: Option<Seq<Seq<u8>>>,
    shard_id: Seq<u8>,
) -> RegistrationVerdict {
    if already_authorized {
        RegistrationVerdict::AlreadyAuthorized
    } else if !content_bound {
        RegistrationVerdict::NotContentBound
    } else {
        match shard_hashes {
            Some(hs) => if covers_shard_spec(hs, shard_id) {
                RegistrationVerdict::Register
            } else {
                RegistrationVerdict::DoesNotCover
            },
            None => RegistrationVerdict::DoesNotCover,
        }
    }
}

pub open spec fn hashes_view(v: Seq<Vec<u8>>) -> Seq<Seq<u8>> {
    v.map_values(|h: Vec<u8>| h@)
}

/// Decide what to do with a delivered registration (see
/// `registration_verdict_spec`).
pub fn registration_verdict(
    already_authorized: bool,
    content_bound: bool,
    shard_hashes: Option<&Vec<Vec<u8>>>,
    shard_id: &[u8],
) -> (r: RegistrationVerdict)
    ensures
        r == registration_verdict_spec(
            already_authorized,
            content_bound,
            match shard_hashes {
                Some(v) => Some(hashes_view(v@)),
                None => None,
            },
            shard_id@,
        ),
{
    if already_authorized {
        return RegistrationVerdict::AlreadyAuthorized;
    }
    if !content_bound {
        return RegistrationVerdict::NotContentBound;
    }
    match shard_hashes {
        None => RegistrationVerdict::DoesNotCover,
        Some(hs) => if covers_shard(hs, shard_id) {
            RegistrationVerdict::Register
        } else {
            RegistrationVerdict::DoesNotCover
        },
    }
}

/// Whether a list of shard hashes holds `shard_id`.
pub fn covers_shard(hs: &Vec<Vec<u8>>, shard_id: &[u8]) -> (r: bool)
    ensures
        r == covers_shard_spec(hashes_view(hs@), shard_id@),
{
    let ghost hv = hashes_view(hs@);
    let mut i: usize = 0;
    while i < hs.len()
        invariant
            i <= hs@.len(),
            hv == hashes_view(hs@),
            forall|k: int| 0 <= k < i ==> hv[k] != shard_id@,
        decreases hs@.len() - i,
    {
        if bytes_eq(hs[i].as_slice(), shard_id) {
            assert(hv[i as int] == shard_id@);
            assert(hv.contains(shard_id@));
            return true;
        }
        i = i + 1;
    }
    false
}

/// The request sent to a peer for a shard: the fetch tag `0x02`, then the
/// shard id.
pub fn shard_fetch_request(shard_id: &[u8]) -> (r: Vec<u8>)
    ensures
        r@ == seq![2u8] + shard_id@,
{
    let mut out: Vec<u8> = Vec::new();
    out.push(2u8);
    let mut i: usize = 0;
    while i < shard_id.len()
        invariant
            i <= shard_id@.len(),
            out@ == seq![2u8] + shard_id@.take(i as int),
        decreases shard_id@.len() - i,
    {
        out.push(shard_id[i]);
        i = i + 1;
        assert(out@ =~= seq![2u8] + shard_id@.take(i as int));
    }
    assert(shard_id@.take(shard_id@.len() as int) =~= shard_id@);
    out
}

/// Reply for a shard held locally.
pub fn local_shard_reply(data: &[u8]) -> (r: JsonValue)
    ensures
        r@ == JsonModel::Object(
            seq![("source"@, JsonModel::Str("local"@)), ("data"@, JsonModel::Str(hex_text(data@)))],
        ),
{
    proof {
        reveal_strlit("local");
    }
    let mut entries = new_entries();
    push_entry(&mut entries, "source", JsonValue::from_str_slice("local"));
    push_entry(&mut entries, "data", JsonValue::Str(hex_encode(data)));
    assert(crate::json::entry_models_of(entries@) =~= seq![
        ("source"@, JsonModel::Str("local"@)),
        ("data"@, JsonModel::Str(hex_text(data@))),
    ]);
    JsonValue::Object(entries)
}

/// Reply for a shard fetched from a peer: the peer's id in short form, the
/// data, and how many peers the new copy was announced to.
pub fn network_shard_reply(peer_id: &str, data: &[u8], announce_targets: u64) -> (r: JsonValue)
    requires
        short_cut_ok(peer_id@),
        encode_utf8(peer_id@).len() <= usize::MAX,
    ensures
        r@ == JsonModel::Object(
            seq![
                ("source"@, JsonModel::Str("network"@)),
                ("peer"@, JsonModel::Str(short_id_spec(peer_id@))),
                ("data"@, JsonModel::Str(hex_text(data@))),
                ("announce_targets"@, JsonModel::UInt(announce_targets)),
            ],
        ),
{
    proof {
        reveal_strlit("network");
    }
    let short = short_id(peer_id);
    let mut entries = new_entries();
    push_entry(&mut entries, "source", JsonValue::from_str_slice("network"));
    push_entry(&mut entries, "peer", JsonValue::from_str_slice(short));
    push_entry(&mut entries, "data", JsonValue::Str(hex_encode(data)));
    push_entry(&mut entries, "announce_targets", JsonValue::UInt(announce_targets));
    assert(crate::json::entry_models_of(entries@) =~= seq![
        ("source"@, JsonModel::Str("network"@)),
        ("peer"@, JsonModel::Str(short_id_spec(peer_id@))),
        ("data"@, JsonModel::Str(hex_text(data@))),
        ("announce_targets"@, JsonModel::UInt(announce_targets)),
    ]);
    JsonValue::Object(entries)
}

/// Error for a shard found neither locally nor on the network.
pub fn shard_not_found(shard_id_hex: &str) -> (r: RpcError)
    ensures
        is_error(
            r,
            SHARD_NOT_FOUND,
            "shard "@ + shard_id_hex@ + " not found locally or on network"@,
        ),
{
    proof {
        reveal_strlit("shard ");
        reveal_strlit(" not found locally or on network");
    }
    RpcError::new(SHARD_NOT_FOUND, concat3("shard ", shard_id_hex, " not found locally or on network"))
}

/// Every position `positions_where` gives is in range, in increasing
/// order, and of an id whose membership in `known` is `wanted`; the two
/// groups together have one position per id.
pub proof fn lemma_positions_where(ids: Seq<Seq<char>>, known: Seq<Seq<char>>, wanted: bool)
    ensures
        forall|k: int|
            0 <= k < positions_where(ids, known, wanted).len() ==> {
                let p = #[trigger] positions_where(ids, known, wanted)[k];
                &&& 0 <= p < ids.len()
                &&& known.contains(ids[p]) == wanted
            },
        forall|a: int, b: int|
            0 <= a < b < positions_where(ids, known, wanted).len() ==> #[trigger] positions_where(
                ids,
                known,
                wanted,
            )[a] < #[trigger] positions_where(ids, known, wanted)[b],
        forall|p: int|
            0 <= p < ids.len() && known.contains(ids[p]) == wanted ==> #[trigger] positions_where(
                ids,
                known,
                wanted,
            ).contains(p),
        positions_where(ids, known, true).len() + positions_where(ids, known, false).len()
            == ids.len(),
    decreases ids.len(),
{
    if ids.len() > 0 {
        let init = ids.drop_last();
        lemma_positions_where(init, known, wanted);
        lemma_positions_where(init, known, !wanted);
        let rest = positions_where(init, known, wanted);
        assert forall|k: int| 0 <= k < rest.len() implies #[trigger] ids[rest[k]] == init[rest[k]] by {
        }
        assert forall|p: int|
            0 <= p < ids.len() && known.contains(ids[p]) == wanted implies #[trigger] positions_where(
                ids,
                known,
                wanted,
            ).contains(p) by {
            assert(positions_where(ids, known, wanted) == (if known.contains(ids.last()) == wanted {
                rest.push(ids.len() - 1)
            } else {
                rest
            }));
            if p < ids.len() - 1 {
                assert(init[p] == ids[p]);
                assert(rest.contains(p));
                let k = choose|k: int| 0 <= k < rest.len() && rest[k] == p;
                assert(positions_where(ids, known, wanted)[k] == p);
            } else {
                let r = positions_where(ids, known, wanted);
                assert(r[r.len() - 1] == p);
            }
        }
    }
}

/// The fetch order asks `min(6, number of peers)` peers, each once and by
/// a valid position; every known provider comes before every other peer;
/// within each group the connection order is kept; and when there are at
/// most six known providers, all of them are asked.
pub proof fn law_fetch_order(ids: Seq<Seq<char>>, known: Seq<Seq<char>>)
    ensures
        ({
            let r = fetch_order_spec(ids, known);
            &&& r.len() == (if ids.len() < MAX_FETCH_PEERS {
                ids.len() as int
            } else {
                MAX_FETCH_PEERS as int
            })
            &&& forall|i: int| 0 <= i < r.len() ==> 0 <= #[trigger] r[i] < ids.len()
            &&& forall|i: int, j: int|
                0 <= i < j < r.len() && known.contains(ids[#[trigger] r[j]]) ==> known.contains(
                    ids[#[trigger] r[i]],
                )
            &&& forall|i: int, j: int|
                0 <= i < j < r.len() ==> #[trigger] r[i] != #[trigger] r[j]
            &&& forall|i: int, j: int|
                0 <= i < j < r.len() && known.contains(ids[#[trigger] r[i]]) == known.contains(
                    ids[#[trigger] r[j]],
                ) ==> r[i] < r[j]
            &&& positions_where(ids, known, true).len() <= MAX_FETCH_PEERS ==> forall|p: int|
                0 <= p < ids.len() && known.contains(ids[p]) ==> #[trigger] r.contains(p)
        }),
{
    lemma_positions_where(ids, known, true);
    lemma_positions_where(ids, known, false);
    let t = positions_where(ids, known, true);
    let f = positions_where(ids, known, false);
    let all = t + f;
    let r = fetch_order_spec(ids, known);
    assert forall|i: int| 0 <= i < r.len() implies 0 <= #[trigger] r[i] < ids.len()
        && known.contains(ids[r[i]]) == (i < t.len()) by {
        if i < t.len() {
            assert(r[i] == t[i]);
        } else {
            assert(r[i] == f[i - t.len()]);
        }
    }
    assert forall|i: int, j: int| 0 <= i < j < r.len() implies #[trigger] r[i] != #[trigger] r[j] by {
        if i < t.len() && j < t.len() {
            assert(t[i] < t[j]);
        } else if i >= t.len() && j >= t.len() {
            assert(f[i - t.len()] < f[j - t.len()]);
        }
    }
    assert forall|i: int, j: int|
        0 <= i < j < r.len() && known.contains(ids[#[trigger] r[i]]) == known.contains(
            ids[#[trigger] r[j]],
        ) implies r[i] < r[j] by {
        if i < t.len() && j < t.len() {
            assert(t[i] < t[j]);
        } else if i >= t.len() && j >= t.len() {
            assert(f[i - t.len()] < f[j - t.len()]);
        }
    }
    if t.len() <= MAX_FETCH_PEERS {
        assert forall|p: int| 0 <= p < ids.len() && known.contains(ids[p]) implies #[trigger] r.contains(
            p,
        ) by {
            assert(t.contains(p));
            let k = choose|k: int| 0 <= k < t.len() && t[k] == p;
            assert(r[k] == p);
        }
    }
}

/// Merging keeps what was already merged, in place; adds nothing `known`;
/// adds every answer that is not `known`; and, when nothing was merged
/// twice before, merges nothing twice.
pub proof fn law_merge_providers(
    merged: Seq<Seq<char>>,
    answers: Seq<Seq<char>>,
    known: Seq<Seq<char>>,
)
    ensures
        ({
            let m = merge_providers_spec(merged, answers, known);
            &&& m.len() >= merged.len()
            &&& m.take(merged.len() as int) == merged
            &&& forall|k: int| merged.len() <= k < m.len() ==> !known.contains(#[trigger] m[k])
            &&& forall|k: int|
                merged.len() <= k < m.len() ==> #[trigger] answers.contains(m[k])
            &&& forall|a: Seq<char>| #[trigger]
                answers.contains(a) && !known.contains(a) ==> m.contains(a)
            &&& (forall|i: int, j: int|
                0 <= i < j < merged.len() ==> merged[i] != merged[j]) ==> (forall|i: int, j: int|
                0 <= i < j < m.len() ==> m[i] != m[j])
        }),
    decreases answers.len(),
{
    if answers.len() > 0 {
        let init = answers.drop_last();
        let a = answers.last();
        law_merge_providers(merged, init, known);
        let m0 = merge_providers_spec(merged, init, known);
        let m = merge_providers_spec(merged, answers, known);
        assert forall|x: Seq<char>| #[trigger] init.contains(x) implies answers.contains(x) by {
            let k = choose|k: int| 0 <= k < init.len() && init[k] == x;
            assert(answers[k] == x);
        }
        assert(answers[answers.len() - 1] == a);
        assert forall|x: Seq<char>| #[trigger]
            answers.contains(x) && !known.contains(x) implies m.contains(x) by {
            let k = choose|k: int| 0 <= k < answers.len() && answers[k] == x;
            if k < answers.len() - 1 {
                assert(init[k] == x);
                assert(init.contains(x));
                assert(m0.contains(x));
                let q = choose|q: int| 0 <= q < m0.len() && m0[q] == x;
                assert(m[q] == x);
            } else if m0.contains(a) {
                let q = choose|q: int| 0 <= q < m0.len() && m0[q] == x;
                assert(m[q] == x);
            } else {
                assert(m[m.len() - 1] == x);
            }
        }
        assert(m.take(merged.len() as int) =~= merged) by {
            assert(m0.take(merged.len() as int) =~= merged);
        }
        assert forall|k: int| merged.len() <= k < m.len() implies !known.contains(#[trigger] m[k])
            && answers.contains(m[k]) by {
            if k < m0.len() {
                assert(m[k] == m0[k]);
                assert(init.contains(m0[k]));
            } else {
                assert(m[k] == a);
            }
        }
        if forall|i: int, j: int| 0 <= i < j < merged.len() ==> merged[i] != merged[j] {
            assert forall|i: int, j: int| 0 <= i < j < m.len() implies m[i] != m[j] by {
                if j < m0.len() {
                    assert(m[i] == m0[i] && m[j] == m0[j]);
                } else {
                    assert(m[j] == a);
                    assert(m[i] == m0[i]);
                    assert(!m0.contains(a));
                }
            }
        }
    }
}

} // verus!
