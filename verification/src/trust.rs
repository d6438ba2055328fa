//! Certificate-authority reports: `trustchain.status`, `trustchain.certs`,
//! `trustchain.identity` and `trustchain.federation`.

use vstd::prelude::*;
use crate::codecs::{blake3_digest, blake3_hash, hex_encode, hex_text};
use crate::json::{JsonModel, JsonValue, int_model, int_value, new_entries, new_items, push_entry, push_item, models_of};

verus! {

/// The CA phase: with both node keys present the node bootstraps with
/// them, otherwise self-signed.
pub open spec fn ca_phase_spec(has_falcon: bool, has_kyber: bool) -> Seq<char> {
    if has_falcon && has_kyber {
        "bootstrap_with_keys"@
    } else {
        "bootstrap_self_signed"@
    }
}

/// Reply to `trustchain.status`.
pub fn trust_status_reply(node_id: &str, has_falcon: bool, has_kyber: bool) -> (r: JsonValue)
    ensures
        r@ == JsonModel::Object(
            seq![
                ("node_id"@, JsonModel::Str(node_id@)),
                ("ca_phase"@, JsonModel::Str(ca_phase_spec(has_falcon, has_kyber))),
                ("cert_type"@, JsonModel::Str("self_signed"@)),
                ("signing_algorithm"@, JsonModel::Str("FALCON-1024"@)),
                ("encryption_algorithm"@, JsonModel::Str("Kyber-1024"@)),
                ("key_exchange"@, JsonModel::Str("X25519MLKEM768"@)),
                ("has_falcon_key"@, JsonModel::Bool(has_falcon)),
                ("has_kyber_key"@, JsonModel::Bool(has_kyber)),
                ("distributed_ca"@, JsonModel::Bool(false)),
                ("status"@, JsonModel::Str("alpha"@)),
            ],
        ),
{
    proof {
        reveal_strlit("bootstrap_with_keys");
        reveal_strlit("bootstrap_self_signed");
        reveal_strlit("self_signed");
        reveal_strlit("FALCON-1024");
        reveal_strlit("Kyber-1024");
        reveal_strlit("X25519MLKEM768");
        reveal_strlit("alpha");
    }
    let phase = if has_falcon && has_kyber {
        "bootstrap_with_keys"
    } else {
        "bootstrap_self_signed"
    };
    let mut entries = new_entries();
    push_entry(&mut entries, "node_id", JsonValue::from_str_slice(node_id));
    push_entry(&mut entries, "ca_phase", JsonValue::from_str_slice(phase));
    push_entry(&mut entries, "cert_type", JsonValue::from_str_slice("self_signed"));
    push_entry(&mut entries, "signing_algorithm", JsonValue::from_str_slice("FALCON-1024"));
    push_entry(&mut entries, "encryption_algorithm", JsonValue::from_str_slice("Kyber-1024"));
    push_entry(&mut entries, "key_exchange", JsonValue::from_str_slice("X25519MLKEM768"));
    push_entry(&mut entries, "has_falcon_key", JsonValue::Bool(has_falcon));
    push_entry(&mut entries, "has_kyber_key", JsonValue::Bool(has_kyber));
    push_entry(&mut entries, "distributed_ca", JsonValue::Bool(false));
    push_entry(&mut entries, "status", JsonValue::from_str_slice("alpha"));
    assert(crate::json::entry_models_of(entries@) =~= seq![
        ("node_id"@, JsonModel::Str(node_id@)),
        ("ca_phase"@, JsonModel::Str(ca_phase_spec(has_falcon, has_kyber))),
        ("cert_type"@, JsonModel::Str("self_signed"@)),
        ("signing_algorithm"@, JsonModel::Str("FALCON-1024"@)),
        ("encryption_algorithm"@, JsonModel::Str("Kyber-1024"@)),
        ("key_exchange"@, JsonModel::Str("X25519MLKEM768"@)),
        ("has_falcon_key"@, JsonModel::Bool(has_falcon)),
        ("has_kyber_key"@, JsonModel::Bool(has_kyber)),
        ("distributed_ca"@, JsonModel::Bool(false)),
        ("status"@, JsonModel::Str("alpha"@)),
    ]);
    JsonValue::Object(entries)
}

/// What became of the node certificate.
#[derive(Debug)]
pub enum CertReading {
    /// There is none: the list is empty, never a placeholder.
    Missing,
    /// It parsed into this JSON form.
    Parsed(JsonValue),
    /// It is there but does not parse: the list is empty and the reason shown.
    Unparseable(String),
}

pub open spec fn certs_reply_spec(node_id: Seq<char>, c: CertReading) -> JsonModel {
    match c {
        CertReading::Missing => JsonModel::Object(
            seq![
                ("node_id"@, JsonModel::Str(node_id)),
                ("certificates"@, JsonModel::Array(Seq::empty())),
                ("total"@, JsonModel::UInt(0)),
                ("status"@, JsonModel::Str("alpha"@)),
            ],
        ),
        CertReading::Parsed(v) => JsonModel::Object(
            seq![
                ("node_id"@, JsonModel::Str(node_id)),
                ("certificates"@, JsonModel::Array(seq![v@])),
                ("total"@, JsonModel::UInt(1)),
                ("status"@, JsonModel::Str("alpha"@)),
            ],
        ),
        CertReading::Unparseable(m) => JsonModel::Object(
            seq![
                ("node_id"@, JsonModel::Str(node_id)),
                ("certificates"@, JsonModel::Array(Seq::empty())),
                ("total"@, JsonModel::UInt(0)),
                ("status"@, JsonModel::Str("alpha"@)),
                ("error"@, JsonModel::Str(m@)),
            ],
        ),
    }
}

/// Reply to `trustchain.certs` (see `certs_reply_spec`).
pub fn certs_reply(node_id: &str, c: CertReading) -> (r: JsonValue)
    ensures
        r@ == certs_reply_spec(node_id@, c),
{
    proof {
        reveal_strlit("alpha");
    }
    let ghost cv = c;
    let mut entries = new_entries();
    push_entry(&mut entries, "node_id", JsonValue::from_str_slice(node_id));
    match c {
        CertReading::Missing => {
            push_entry(&mut entries, "certificates", JsonValue::Array(new_items()));
            push_entry(&mut entries, "total", JsonValue::UInt(0));
            push_entry(&mut entries, "status", JsonValue::from_str_slice("alpha"));
            assert(crate::json::entry_models_of(entries@) =~= seq![
                ("node_id"@, JsonModel::Str(node_id@)),
                ("certificates"@, JsonModel::Array(Seq::empty())),
                ("total"@, JsonModel::UInt(0)),
                ("status"@, JsonModel::Str("alpha"@)),
            ]);
        },
        CertReading::Parsed(v) => {
            let ghost vm = v@;
            let mut items = new_items();
            push_item(&mut items, v);
            assert(models_of(items@) =~= seq![vm]);
            push_entry(&mut entries, "certificates", JsonValue::Array(items));
            push_entry(&mut entries, "total", JsonValue::UInt(1));
            push_entry(&mut entries, "status", JsonValue::from_str_slice("alpha"));
            assert(crate::json::entry_models_of(entries@) =~= seq![
                ("node_id"@, JsonModel::Str(node_id@)),
                ("certificates"@, JsonModel::Array(seq![vm])),
                ("total"@, JsonModel::UInt(1)),
                ("status"@, JsonModel::Str("alpha"@)),
            ]);
        },
        CertReading::Unparseable(m) => {
            let ghost mm = m@;
            push_entry(&mut entries, "certificates", JsonValue::Array(new_items()));
            push_entry(&mut entries, "total", JsonValue::UInt(0));
            push_entry(&mut entries, "status", JsonValue::from_str_slice("alpha"));
            push_entry(&mut entries, "error", JsonValue::Str(m));
            assert(crate::json::entry_models_of(entries@) =~= seq![
                ("node_id"@, JsonModel::Str(node_id@)),
                ("certificates"@, JsonModel::Array(Seq::empty())),
                ("total"@, JsonModel::UInt(0)),
                ("status"@, JsonModel::Str("alpha"@)),
                ("error"@, JsonModel::Str(mm)),
            ]);
        },
    }
    JsonValue::Object(entries)
}

pub open spec fn key_info_spec(key: Option<Seq<u8>>, algorithm: Seq<char>) -> JsonModel {
    match key {
        Some(k) => JsonModel::Object(
            seq![
                ("present"@, JsonModel::Bool(true)),
                ("bytes"@, JsonModel::UInt(k.len() as u64)),
                ("fingerprint"@, JsonModel::Str(hex_text(blake3_digest(k)))),
                ("key_algorithm"@, JsonModel::Str(algorithm)),
            ],
        ),
        None => JsonModel::Object(
            seq![
                ("present"@, JsonModel::Bool(false)),
                ("bytes"@, JsonModel::UInt(0)),
                ("fingerprint"@, JsonModel::Null),
                ("key_algorithm"@, JsonModel::Str(algorithm)),
            ],
        ),
    }
}

/// A public key's summary: whether it is present, its size and its BLAKE3
/// fingerprint in hex.
pub fn key_info(key: Option<&[u8]>, algorithm: &str) -> (r: JsonValue)
    ensures
        r@ == key_info_spec(
            match key {
                Some(k) => Some(k@),
                None => None,
            },
            algorithm@,
        ),
{
    let mut entries = new_entries();
    match key {
        Some(k) => {
            let h = blake3_hash(k);
            push_entry(&mut entries, "present", JsonValue::Bool(true));
            push_entry(&mut entries, "bytes", JsonValue::UInt(k.len() as u64));
            push_entry(&mut entries, "fingerprint", JsonValue::Str(hex_encode(h.as_slice())));
            push_entry(&mut entries, "key_algorithm", JsonValue::from_str_slice(algorithm));
            assert(crate::json::entry_models_of(entries@) =~= seq![
                ("present"@, JsonModel::Bool(true)),
                ("bytes"@, JsonModel::UInt(k@.len() as u64)),
                ("fingerprint"@, JsonModel::Str(hex_text(blake3_digest(k@)))),
                ("key_algorithm"@, JsonModel::Str(algorithm@)),
            ]);
        },
        None => {
            push_entry(&mut entries, "present", JsonValue::Bool(false));
            push_entry(&mut entries, "bytes", JsonValue::UInt(0));
            push_entry(&mut entries, "fingerprint", JsonValue::Null);
            push_entry(&mut entries, "key_algorithm", JsonValue::from_str_slice(algorithm));
            assert(crate::json::entry_models_of(entries@) =~= seq![
                ("present"@, JsonModel::Bool(false)),
                ("bytes"@, JsonModel::UInt(0)),
                ("fingerprint"@, JsonModel::Null),
                ("key_algorithm"@, JsonModel::Str(algorithm@)),
            ]);
        },
    }
    JsonValue::Object(entries)
}

pub open spec fn opt_bytes(o: Option<&[u8]>) -> Option<Seq<u8>> {
    match o {
        Some(k) => Some(k@),
        None => None,
    }
}

/// When the certificate became valid, or null.
pub open spec fn created_model(o: Option<i64>) -> JsonModel {
    match o {
        Some(t) => int_model(t),
        None => JsonModel::Null,
    }
}

/// Reply to `trustchain.identity`: both keys' summaries, when the node
/// certificate became valid (if it parses), and the privacy mode.
pub fn identity_reply(
    node_id: &str,
    falcon_key: Option<&[u8]>,
    kyber_key: Option<&[u8]>,
    created_at: Option<i64>,
    privacy_mode: &str,
) -> (r: JsonValue)
    ensures
        r@ == JsonModel::Object(
            seq![
                ("node_id"@, JsonModel::Str(node_id@)),
                ("falcon"@, key_info_spec(opt_bytes(falcon_key), "FALCON-1024"@)),
                ("kyber"@, key_info_spec(opt_bytes(kyber_key), "Kyber-1024"@)),
                ("created_at"@, created_model(created_at)),
                ("privacy_mode"@, JsonModel::Str(privacy_mode@)),
                ("status"@, JsonModel::Str("alpha"@)),
            ],
        ),
{
    proof {
        reveal_strlit("alpha");
    }
    let falcon = key_info(falcon_key, "FALCON-1024");
    let kyber = key_info(kyber_key, "Kyber-1024");
    let ghost fm = falcon@;
    let ghost km = kyber@;
    let created = match created_at {
        Some(t) => int_value(t),
        None => JsonValue::Null,
    };
    let ghost cm = created@;
    assert(cm == created_model(created_at));
    assert(fm == key_info_spec(opt_bytes(falcon_key), "FALCON-1024"@));
    let mut entries = new_entries();
    push_entry(&mut entries, "node_id", JsonValue::from_str_slice(node_id));
    push_entry(&mut entries, "falcon", falcon);
    push_entry(&mut entries, "kyber", kyber);
    push_entry(&mut entries, "created_at", created);
    push_entry(&mut entries, "privacy_mode", JsonValue::from_str_slice(privacy_mode));
    push_entry(&mut entries, "status", JsonValue::from_str_slice("alpha"));
    assert(crate::json::entry_models_of(entries@) =~= seq![
        ("node_id"@, JsonModel::Str(node_id@)),
        ("falcon"@, fm),
        ("kyber"@, km),
        ("created_at"@, cm),
        ("privacy_mode"@, JsonModel::Str(privacy_mode@)),
        ("status"@, JsonModel::Str("alpha"@)),
    ]);
    JsonValue::Object(entries)
}

/// Reply to `trustchain.federation`: no federated peers yet, only the
/// count of network peers.
pub fn federation_reply(node_id: &str, network_peers: u64) -> (r: JsonValue)
    ensures
        r@ == JsonModel::Object(
            seq![
                ("node_id"@, JsonModel::Str(node_id@)),
                ("peers"@, JsonModel::Array(Seq::empty())),
                ("total_peers"@, JsonModel::UInt(0)),
                ("network_peers"@, JsonModel::UInt(network_peers)),
                (
                    "trust_levels"@,
                    JsonModel::Object(
                        seq![
                            ("full"@, JsonModel::UInt(0)),
                            ("conditional"@, JsonModel::UInt(0)),
                            ("untrusted"@, JsonModel::UInt(0)),
                        ],
                    ),
                ),
                ("status"@, JsonModel::Str("alpha"@)),
                ("note"@, JsonModel::Str("distributed CA not yet active"@)),
            ],
        ),
{
    proof {
        reveal_strlit("alpha");
        reveal_strlit("distributed CA not yet active");
    }
    let mut levels = new_entries();
    push_entry(&mut levels, "full", JsonValue::UInt(0));
    push_entry(&mut levels, "conditional", JsonValue::UInt(0));
    push_entry(&mut levels, "untrusted", JsonValue::UInt(0));
    let ghost lv = seq![
        ("full"@, JsonModel::UInt(0)),
        ("conditional"@, JsonModel::UInt(0)),
        ("untrusted"@, JsonModel::UInt(0)),
    ];
    assert(crate::json::entry_models_of(levels@) =~= lv);
    let mut entries = new_entries();
    push_entry(&mut entries, "node_id", JsonValue::from_str_slice(node_id));
    push_entry(&mut entries, "peers", JsonValue::Array(new_items()));
    push_entry(&mut entries, "total_peers", JsonValue::UInt(0));
    push_entry(&mut entries, "network_peers", JsonValue::UInt(network_peers));
    push_entry(&mut entries, "trust_levels", JsonValue::Object(levels));
    push_entry(&mut entries, "status", JsonValue::from_str_slice("alpha"));
    push_entry(&mut entries, "note", JsonValue::from_str_slice("distributed CA not yet active"));
    assert(crate::json::entry_models_of(entries@) =~= seq![
        ("node_id"@, JsonModel::Str(node_id@)),
        ("peers"@, JsonModel::Array(Seq::empty())),
        ("total_peers"@, JsonModel::UInt(0)),
        ("network_peers"@, JsonModel::UInt(network_peers)),
        ("trust_levels"@, JsonModel::Object(lv)),
        ("status"@, JsonModel::Str("alpha"@)),
        ("note"@, JsonModel::Str("distributed CA not yet active"@)),
    ]);
    JsonValue::Object(entries)
}

} // verus!
