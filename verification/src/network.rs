//! Network and identity requests: `network.peers`, `network.connect`,
//! `identity.pubkey`, `identity.rotate` and `peer.pubkey`.

use vstd::prelude::*;
use vstd::utf8::{decode_utf8, encode_utf8, is_char_boundary};
use crate::codecs::{hex_encode, hex_text};
use crate::json::{
    JsonModel, JsonValue, json_get_str, models_of, new_entries, new_items, push_entry, push_item,
};
use crate::protocol::{RpcError, INTERNAL_ERROR, INVALID_PARAMS, is_error};
use crate::text::{concat2, concat3};
use crate::topology::{coordinate_model, coordinate_value};

verus! {

/// A connected peer as the network listings show it.
#[derive(Debug)]
pub struct PeerSummary {
    pub node_id: String,
    pub address: String,
    pub coordinate: (i64, i64, i64),
}

pub open spec fn peer_json(p: PeerSummary) -> JsonModel {
    JsonModel::Object(
        seq![
            ("node_id"@, JsonModel::Str(p.node_id@)),
            ("address"@, JsonModel::Str(p.address@)),
            ("coordinate"@, coordinate_model(p.coordinate)),
        ],
    )
}

pub open spec fn peers_reply_spec(peers: Option<Seq<PeerSummary>>) -> JsonModel {
    match peers {
        Some(ps) => JsonModel::Object(
            seq![
                ("count"@, JsonModel::UInt(ps.len() as u64)),
                ("peers"@, JsonModel::Array(ps.map_values(|p: PeerSummary| peer_json(p)))),
            ],
        ),
        None => JsonModel::Object(
            seq![
                ("count"@, JsonModel::UInt(0)),
                ("peers"@, JsonModel::Array(Seq::empty())),
                ("note"@, JsonModel::Str("no network manager (private mode)"@)),
            ],
        ),
    }
}

/// Reply to `network.peers`: the connected peers when a network manager
/// runs, else none and a note that the node is private.
pub fn peers_reply(peers: Option<&Vec<PeerSummary>>) -> (r: JsonValue)
    ensures
        r@ == peers_reply_spec(
            match peers {
                Some(v) => Some(v@),
                None => None,
            },
        ),
{
    proof {
        reveal_strlit("no network manager (private mode)");
    }
    match peers {
        Some(ps) => {
            let mut items = new_items();
            let mut i: usize = 0;
            while i < ps.len()
                invariant
                    i <= ps@.len(),
                    models_of(items@) == ps@.take(i as int).map_values(|p: PeerSummary| peer_json(p)),
                decreases ps@.len() - i,
            {
                let ghost before = models_of(items@);
                let p = &ps[i];
                let mut e = new_entries();
                push_entry(&mut e, "node_id", JsonValue::from_str_slice(p.node_id.as_str()));
                push_entry(&mut e, "address", JsonValue::from_str_slice(p.address.as_str()));
                push_entry(&mut e, "coordinate", coordinate_value(p.coordinate));
                assert(crate::json::entry_models_of(e@) =~= seq![
                    ("node_id"@, JsonModel::Str(p.node_id@)),
                    ("address"@, JsonModel::Str(p.address@)),
                    ("coordinate"@, coordinate_model(p.coordinate)),
                ]);
                push_item(&mut items, JsonValue::Object(e));
                assert(ps@.take(i + 1) =~= ps@.take(i as int).push(ps@[i as int]));
                assert(ps@.take(i + 1).map_values(|p: PeerSummary| peer_json(p)) =~= before.push(
                    peer_json(ps@[i as int]),
                ));
                i = i + 1;
            }
            assert(ps@.take(ps@.len() as int) =~= ps@);
            let mut entries = new_entries();
            push_entry(&mut entries, "count", JsonValue::UInt(ps.len() as u64));
            push_entry(&mut entries, "peers", JsonValue::Array(items));
            assert(crate::json::entry_models_of(entries@) =~= seq![
                ("count"@, JsonModel::UInt(ps@.len() as u64)),
                ("peers"@, JsonModel::Array(ps@.map_values(|p: PeerSummary| peer_json(p)))),
            ]);
            JsonValue::Object(entries)
        },
        None => {
            let mut entries = new_entries();
            push_entry(&mut entries, "count", JsonValue::UInt(0));
            push_entry(&mut entries, "peers", JsonValue::Array(new_items()));
            push_entry(
                &mut entries,
                "note",
                JsonValue::from_str_slice("no network manager (private mode)"),
            );
            assert(crate::json::entry_models_of(entries@) =~= seq![
                ("count"@, JsonModel::UInt(0)),
                ("peers"@, JsonModel::Array(Seq::empty())),
                ("note"@, JsonModel::Str("no network manager (private mode)"@)),
            ]);
            JsonValue::Object(entries)
        },
    }
}

/// Reply to `network.connect`: connections belong to the transport layer,
/// so the request is only acknowledged, or refused on a private node.
pub fn connect_reply(network_present: bool) -> (r: JsonValue)
    ensures
        network_present ==> r@ == JsonModel::Object(
            seq![
                ("status"@, JsonModel::Str("connection_requested"@)),
                ("note"@, JsonModel::Str("peer connections managed by STOQ layer"@)),
            ],
        ),
        !network_present ==> r@ == JsonModel::Object(
            seq![
                ("status"@, JsonModel::Str("unavailable"@)),
                ("error"@, JsonModel::Str("no network manager (private mode)"@)),
            ],
        ),
{
    proof {
        reveal_strlit("connection_requested");
        reveal_strlit("peer connections managed by STOQ layer");
        reveal_strlit("unavailable");
        reveal_strlit("no network manager (private mode)");
    }
    let mut entries = new_entries();
    if network_present {
        push_entry(&mut entries, "status", JsonValue::from_str_slice("connection_requested"));
        push_entry(
            &mut entries,
            "note",
            JsonValue::from_str_slice("peer connections managed by STOQ layer"),
        );
        assert(crate::json::entry_models_of(entries@) =~= seq![
            ("status"@, JsonModel::Str("connection_requested"@)),
            ("note"@, JsonModel::Str("peer connections managed by STOQ layer"@)),
        ]);
    } else {
        push_entry(&mut entries, "status", JsonValue::from_str_slice("unavailable"));
        push_entry(
            &mut entries,
            "error",
            JsonValue::from_str_slice("no network manager (private mode)"),
        );
        assert(crate::json::entry_models_of(entries@) =~= seq![
            ("status"@, JsonModel::Str("unavailable"@)),
            ("error"@, JsonModel::Str("no network manager (private mode)"@)),
        ]);
    }
    JsonValue::Object(entries)
}

/// The reason a rotation is asked for: `reason`, or `"scheduled"`.
pub open spec fn rotation_reason(params: JsonModel) -> Seq<char> {
    match json_get_str(params, "reason"@) {
        Some(s) => s,
        None => "scheduled"@,
    }
}

/// Reply to `identity.rotate`: the rotation is registered with its reason
/// (`"scheduled"` when none is given).
pub fn rotate_reply(params: &JsonValue, node_id: &str) -> (r: JsonValue)
    ensures
        r@ == JsonModel::Object(
            seq![
                ("status"@, JsonModel::Str("rotation_initiated"@)),
                ("reason"@, JsonModel::Str(rotation_reason(params@))),
                ("node_id"@, JsonModel::Str(node_id@)),
                (
                    "note"@,
                    JsonModel::Str("Key rotation registered. New key will be used after restart."@),
                ),
            ],
        ),
{
    proof {
        reveal_strlit("rotation_initiated");
        reveal_strlit("scheduled");
        reveal_strlit("Key rotation registered. New key will be used after restart.");
    }
    let reason = match params.get_str("reason") {
        Some(s) => s,
        None => "scheduled",
    };
    let mut entries = new_entries();
    push_entry(&mut entries, "status", JsonValue::from_str_slice("rotation_initiated"));
    push_entry(&mut entries, "reason", JsonValue::from_str_slice(reason));
    push_entry(&mut entries, "node_id", JsonValue::from_str_slice(node_id));
    push_entry(
        &mut entries,
        "note",
        JsonValue::from_str_slice("Key rotation registered. New key will be used after restart."),
    );
    assert(crate::json::entry_models_of(entries@) =~= seq![
        ("status"@, JsonModel::Str("rotation_initiated"@)),
        ("reason"@, JsonModel::Str(reason@)),
        ("node_id"@, JsonModel::Str(node_id@)),
        ("note"@, JsonModel::Str("Key rotation registered. New key will be used after restart."@)),
    ]);
    JsonValue::Object(entries)
}

/// Reply to `identity.pubkey`: both public keys in hex with their sizes.
pub fn identity_pubkey_reply(node_id: &str, falcon: &[u8], kyber: &[u8]) -> (r: JsonValue)
    ensures
        r@ == JsonModel::Object(
            seq![
                ("node_id"@, JsonModel::Str(node_id@)),
                ("falcon_pubkey"@, JsonModel::Str(hex_text(falcon@))),
                ("falcon_pubkey_bytes"@, JsonModel::UInt(falcon@.len() as u64)),
                ("kyber_pubkey"@, JsonModel::Str(hex_text(kyber@))),
                ("kyber_pubkey_bytes"@, JsonModel::UInt(kyber@.len() as u64)),
            ],
        ),
{
    let mut entries = new_entries();
    push_entry(&mut entries, "node_id", JsonValue::from_str_slice(node_id));
    push_entry(&mut entries, "falcon_pubkey", JsonValue::Str(hex_encode(falcon)));
    push_entry(&mut entries, "falcon_pubkey_bytes", JsonValue::UInt(falcon.len() as u64));
    push_entry(&mut entries, "kyber_pubkey", JsonValue::Str(hex_encode(kyber)));
    push_entry(&mut entries, "kyber_pubkey_bytes", JsonValue::UInt(kyber.len() as u64));
    assert(crate::json::entry_models_of(entries@) =~= seq![
        ("node_id"@, JsonModel::Str(node_id@)),
        ("falcon_pubkey"@, JsonModel::Str(hex_text(falcon@))),
        ("falcon_pubkey_bytes"@, JsonModel::UInt(falcon@.len() as u64)),
        ("kyber_pubkey"@, JsonModel::Str(hex_text(kyber@))),
        ("kyber_pubkey_bytes"@, JsonModel::UInt(kyber@.len() as u64)),
    ]);
    JsonValue::Object(entries)
}

/// Error when a public key file could not be read; `scheme` names the key
/// (`FALCON` or `Kyber`).
pub fn key_read_failed(scheme: &str, path: &str, detail: &str) -> (r: RpcError)
    ensures
        is_error(
            r,
            INTERNAL_ERROR,
            "failed to read "@ + scheme@ + " public key from "@ + path@ + ": "@ + detail@,
        ),
{
    proof {
        reveal_strlit("failed to read ");
        reveal_strlit(" public key from ");
        reveal_strlit(": ");
    }
    let a = concat3("failed to read ", scheme, " public key from ");
    let b = concat3(a.as_str(), path, ": ");
    RpcError::new(INTERNAL_ERROR, concat2(b.as_str(), detail))
}

/// How a `peer.pubkey` call names the peer.
#[derive(Debug)]
pub enum PeerLookup {
    NodeId(String),
    Name(String),
}

/// The peer a `peer.pubkey` call names: `node_id` wins over `name`; one of
/// them is required.
pub fn peer_lookup_key(params: &JsonValue) -> (r: Result<PeerLookup, RpcError>)
    ensures
        match (json_get_str(params@, "node_id"@), json_get_str(params@, "name"@)) {
            (Some(id), _) => r matches Ok(PeerLookup::NodeId(s)) && s@ == id,
            (None, Some(n)) => r matches Ok(PeerLookup::Name(s)) && s@ == n,
            (None, None) => r matches Err(e) && is_error(
                e,
                INVALID_PARAMS,
                "provide either 'node_id' or 'name' parameter"@,
            ),
        },
{
    proof {
        reveal_strlit("provide either 'node_id' or 'name' parameter");
    }
    match params.get_str("node_id") {
        Some(id) => Ok(PeerLookup::NodeId(String::from_str(id))),
        None => match params.get_str("name") {
            Some(n) => Ok(PeerLookup::Name(String::from_str(n))),
            None => Err(
                RpcError::new(
                    INVALID_PARAMS,
                    String::from_str("provide either 'node_id' or 'name' parameter"),
                ),
            ),
        },
    }
}

/// A lookup by DNS name is refused either way: when the name resolves,
/// because mapping an address to a node is not supported; otherwise
/// because the name is unknown.
pub fn name_lookup_refused(name: &str, resolved: bool) -> (r: RpcError)
    ensures
        resolved ==> is_error(
            r,
            INVALID_PARAMS,
            "DNS name '"@ + name@
                + "' resolved but node_id lookup by name is not yet implemented -- use node_id directly"@,
        ),
        !resolved ==> is_error(r, INVALID_PARAMS, "DNS name '"@ + name@ + "' not found"@),
{
    proof {
        reveal_strlit("DNS name '");
        reveal_strlit(
            "' resolved but node_id lookup by name is not yet implemented -- use node_id directly",
        );
        reveal_strlit("' not found");
    }
    if resolved {
        RpcError::new(
            INVALID_PARAMS,
            concat3(
                "DNS name '",
                name,
                "' resolved but node_id lookup by name is not yet implemented -- use node_id directly",
            ),
        )
    } else {
        RpcError::new(INVALID_PARAMS, concat3("DNS name '", name, "' not found"))
    }
}

/// Error when no network manager runs.
pub fn no_network_error() -> (r: RpcError)
    ensures
        is_error(r, INTERNAL_ERROR, "no network manager (private mode)"@),
{
    proof {
        reveal_strlit("no network manager (private mode)");
    }
    RpcError::new(INTERNAL_ERROR, String::from_str("no network manager (private mode)"))
}

/// A peer authenticated by the handshake.
#[derive(Debug)]
pub struct AuthenticatedPeer {
    pub node_id: String,
    pub pubkey: Vec<u8>,
    pub coordinate: (i64, i64, i64),
    pub network_id: String,
}

/// Reply to `peer.pubkey` for a known peer.
pub fn peer_pubkey_reply(peer: &AuthenticatedPeer) -> (r: JsonValue)
    ensures
        r@ == JsonModel::Object(
            seq![
                ("node_id"@, JsonModel::Str(peer.node_id@)),
                ("falcon_pubkey"@, JsonModel::Str(hex_text(peer.pubkey@))),
                ("falcon_pubkey_bytes"@, JsonModel::UInt(peer.pubkey@.len() as u64)),
                ("coordinate"@, coordinate_model(peer.coordinate)),
                ("network_id"@, JsonModel::Str(peer.network_id@)),
            ],
        ),
{
    let mut entries = new_entries();
    push_entry(&mut entries, "node_id", JsonValue::from_str_slice(peer.node_id.as_str()));
    push_entry(&mut entries, "falcon_pubkey", JsonValue::Str(hex_encode(peer.pubkey.as_slice())));
    push_entry(&mut entries, "falcon_pubkey_bytes", JsonValue::UInt(peer.pubkey.len() as u64));
    push_entry(&mut entries, "coordinate", coordinate_value(peer.coordinate));
    push_entry(&mut entries, "network_id", JsonValue::from_str_slice(peer.network_id.as_str()));
    assert(crate::json::entry_models_of(entries@) =~= seq![
        ("node_id"@, JsonModel::Str(peer.node_id@)),
        ("falcon_pubkey"@, JsonModel::Str(hex_text(peer.pubkey@))),
        ("falcon_pubkey_bytes"@, JsonModel::UInt(peer.pubkey@.len() as u64)),
        ("coordinate"@, coordinate_model(peer.coordinate)),
        ("network_id"@, JsonModel::Str(peer.network_id@)),
    ]);
    JsonValue::Object(entries)
}

/// Number of bytes of a node id shown in short form: 8, or fewer for a
/// shorter id.
pub open spec fn short_len(s: Seq<char>) -> int {
    if encode_utf8(s).len() < 8 {
        encode_utf8(s).len() as int
    } else {
        8
    }
}

/// Whether the short form of `s` ends between two characters.
pub open spec fn short_cut_ok(s: Seq<char>) -> bool {
    is_char_boundary(encode_utf8(s), short_len(s))
}

/// The short form of a node id: its first 8 bytes.
pub open spec fn short_id_spec(s: Seq<char>) -> Seq<char> {
    decode_utf8(encode_utf8(s).take(short_len(s)))
}

/// The first 8 bytes of a node id (all of a shorter one); the cut must
/// fall between two characters.
pub fn short_id(s: &str) -> (r: &str)
    requires
        short_cut_ok(s@),
        encode_utf8(s@).len() <= usize::MAX,
    ensures
        r@ == short_id_spec(s@),
        encode_utf8(r@) == encode_utf8(s@).take(short_len(s@)),
{
    let n = s.len();
    let cut: usize = if n < 8 {
        n
    } else {
        8
    };
    let (head, _tail) = s.split_at(cut);
    proof {
        assert(encode_utf8(head@) =~= encode_utf8(s@).take(short_len(s@)));
        vstd::utf8::encode_utf8_decode_utf8(head@);
    }
    head
}

/// Error for a peer that is not among the authenticated peers; the id is
/// shown in short form.
pub fn peer_not_found(target: &str) -> (r: RpcError)
    requires
        short_cut_ok(target@),
        encode_utf8(target@).len() <= usize::MAX,
    ensures
        is_error(
            r,
            INVALID_PARAMS,
            "peer '"@ + short_id_spec(target@) + "...' not found in authenticated peers"@,
        ),
{
    proof {
        reveal_strlit("peer '");
        reveal_strlit("...' not found in authenticated peers");
    }
    let short = short_id(target);
    RpcError::new(
        INVALID_PARAMS,
        concat3("peer '", short, "...' not found in authenticated peers"),
    )
}

} // verus!
