//! Dashboards: the checks on a `dashboard.deploy` call, the decoding of
//! its files, and the replies of `dashboard.deploy`, `dashboard.list` and
//! `dashboard.info`. Parsing the manifest, bundling, registering and writing
//! to disk are the caller's.

use vstd::prelude::*;
use crate::codecs::{base64_decode, base64_standard_decode, hex_encode, hex_text};
use crate::json::{
    JsonModel, JsonValue, json_get, json_get_str, entry_models_of, lemma_entry_models_of_len,
    models_of, new_entries, new_items, push_entry, push_item,
};
use crate::protocol::{RpcError, INTERNAL_ERROR, INVALID_PARAMS, is_error};
use crate::text::{concat2, concat3, copy_string};

verus! {

/// The checked parameters of `dashboard.deploy`.
#[derive(Debug)]
pub struct DeployParams {
    pub name: String,
    pub manifest_toml: String,
    /// The members of the `files` object: path and base64 content.
    pub files: Vec<(String, JsonValue)>,
}

/// The checks on `dashboard.deploy`: `name` and `manifest_toml` strings
/// and a `files` object are required.
pub open spec fn deploy_spec(params: JsonModel) -> Result<
    (Seq<char>, Seq<char>, Seq<(Seq<char>, JsonModel)>),
    Seq<char>,
> {
    match json_get_str(params, "name"@) {
        None => Err("missing 'name' parameter"@),
        Some(n) => match json_get_str(params, "manifest_toml"@) {
            None => Err("missing 'manifest_toml' parameter"@),
            Some(m) => match json_get(params, "files"@) {
                Some(JsonModel::Object(entries)) => Ok((n, m, entries)),
                _ => Err("missing 'files' parameter (object)"@),
            },
        },
    }
}

/// Check the parameters of `dashboard.deploy` (see `deploy_spec`).
pub fn deploy_params(params: &JsonValue) -> (r: Result<DeployParams, RpcError>)
    ensures
        match deploy_spec(params@) {
            Ok((n, m, es)) => r matches Ok(p) && p.name@ == n && p.manifest_toml@ == m
                && entry_models_of(p.files@) == es,
            Err(msg) => r matches Err(e) && is_error(e, INVALID_PARAMS, msg),
        },
{
    proof {
        reveal_strlit("missing 'name' parameter");
        reveal_strlit("missing 'manifest_toml' parameter");
        reveal_strlit("missing 'files' parameter (object)");
    }
    let name = match params.get_str("name") {
        Some(n) => n,
        None => {
            return Err(RpcError::new(INVALID_PARAMS, String::from_str("missing 'name' parameter")));
        },
    };
    let manifest = match params.get_str("manifest_toml") {
        Some(m) => m,
        None => {
            return Err(
                RpcError::new(INVALID_PARAMS, String::from_str("missing 'manifest_toml' parameter")),
            );
        },
    };
    let files = match params.get("files") {
        Some(f) => match f.duplicate() {
            JsonValue::Object(entries) => entries,
            _ => {
                return Err(
                    RpcError::new(
                        INVALID_PARAMS,
                        String::from_str("missing 'files' parameter (object)"),
                    ),
                );
            },
        },
        None => {
            return Err(
                RpcError::new(INVALID_PARAMS, String::from_str("missing 'files' parameter (object)")),
            );
        },
    };
    Ok(
        DeployParams {
            name: String::from_str(name),
            manifest_toml: String::from_str(manifest),
            files,
        },
    )
}

/// Decoded files, or the message of the first file that does not decode.
pub open spec fn decode_files_spec(es: Seq<(Seq<char>, JsonModel)>) -> Result<
    Seq<(Seq<char>, Seq<u8>)>,
    Seq<char>,
>
    decreases es.len(),
{
    if es.len() == 0 {
        Ok(Seq::empty())
    } else {
        match decode_files_spec(es.drop_last()) {
            Err(e) => Err(e),
            Ok(acc) => {
                let (path, v) = es.last();
                match v {
                    JsonModel::Str(b64) => match base64_standard_decode(b64) {
                        Ok(bytes) => Ok(acc.push((path, bytes))),
                        Err(m) => Err("invalid base64 for '"@ + path + "': "@ + m),
                    },
                    _ => Err("file value for '"@ + path + "' must be a base64 string"@),
                }
            },
        }
    }
}

/// Decode the base64 contents of the files, in order (see
/// `decode_files_spec`); refusals are `INVALID_PARAMS` errors.
pub fn decode_dashboard_files(files: &Vec<(String, JsonValue)>) -> (r: Result<Vec<(String, Vec<u8>)>, RpcError>)
    ensures
        match decode_files_spec(entry_models_of(files@)) {
            Ok(fs) => r matches Ok(v) && v@.map_values(|p: (String, Vec<u8>)| (p.0@, p.1@)) == fs,
            Err(m) => r matches Err(e) && is_error(e, INVALID_PARAMS, m),
        },
{
    proof {
        lemma_entry_models_of_len(files@);
        reveal_strlit("invalid base64 for '");
        reveal_strlit("': ");
        reveal_strlit("file value for '");
        reveal_strlit("' must be a base64 string");
    }
    let ghost es = entry_models_of(files@);
    let mut out: Vec<(String, Vec<u8>)> = Vec::new();
    let mut i: usize = 0;
    assert(es.take(0) =~= Seq::<(Seq<char>, JsonModel)>::empty());
    assert(out@.map_values(|p: (String, Vec<u8>)| (p.0@, p.1@)) =~= Seq::<(Seq<char>, Seq<u8>)>::empty());
    while i < files.len()
        invariant
            i <= files@.len(),
            es == entry_models_of(files@),
            es.len() == files@.len(),
            forall|k: int| 0 <= k < files@.len() ==> #[trigger] es[k] == (files@[k].0@, files@[k].1@),
            decode_files_spec(es.take(i as int)) == Ok::<Seq<(Seq<char>, Seq<u8>)>, Seq<char>>(
                out@.map_values(|p: (String, Vec<u8>)| (p.0@, p.1@)),
            ),
        decreases files@.len() - i,
    {
        assert(es.take(i + 1).drop_last() =~= es.take(i as int));
        assert(es.take(i + 1).last() == es[i as int]);
        let path = &files[i].0;
        match &files[i].1 {
            JsonValue::Str(b64) => match base64_decode(b64.as_str()) {
                Ok(bytes) => {
                    let ghost before = out@.map_values(|p: (String, Vec<u8>)| (p.0@, p.1@));
                    out.push((copy_string(path), bytes));
                    assert(out@.map_values(|p: (String, Vec<u8>)| (p.0@, p.1@)) =~= before.push(
                        (es[i as int].0, base64_standard_decode(b64@)->Ok_0),
                    ));
                },
                Err(m) => {
                    let head = concat3("invalid base64 for '", path.as_str(), "': ");
                    proof {
                        lemma_decode_error_sticks(es, i as int + 1);
                    }
                    return Err(RpcError::new(INVALID_PARAMS, concat2(head.as_str(), m.as_str())));
                },
            },
            _ => {
                proof {
                    lemma_decode_error_sticks(es, i as int + 1);
                }
                return Err(
                    RpcError::new(
                        INVALID_PARAMS,
                        concat3("file value for '", path.as_str(), "' must be a base64 string"),
                    ),
                );
            },
        }
        i = i + 1;
    }
    assert(es.take(files@.len() as int) =~= es);
    Ok(out)
}

/// Once decoding a prefix fails, decoding any longer prefix fails the same way.
pub proof fn lemma_decode_error_sticks(es: Seq<(Seq<char>, JsonModel)>, k: int)
    requires
        0 <= k <= es.len(),
        decode_files_spec(es.take(k)) is Err,
    ensures
        decode_files_spec(es) == decode_files_spec(es.take(k)),
    decreases es.len() - k,
{
    if k < es.len() {
        let t = es.take(k + 1);
        assert(t.drop_last() =~= es.take(k));
        lemma_decode_error_sticks(es, k + 1);
    } else {
        assert(es.take(k) =~= es);
    }
}

/// The configuration bytes a deployed dashboard registers with.
pub fn deploy_config(name: &str) -> (r: Vec<u8>)
    ensures
        r@ == vstd::utf8::encode_utf8(("DASHBOARD:DEPLOY:"@ + name@)),
{
    let text = concat2("DASHBOARD:DEPLOY:", name);
    proof {
        reveal_strlit("DASHBOARD:DEPLOY:");
    }
    crate::text::utf8_bytes(text.as_str())
}

/// Error for a manifest that does not parse.
pub fn invalid_manifest(detail: &str) -> (r: RpcError)
    ensures
        is_error(r, INVALID_PARAMS, "invalid manifest: "@ + detail@),
{
    proof {
        reveal_strlit("invalid manifest: ");
    }
    RpcError::new(INVALID_PARAMS, concat2("invalid manifest: ", detail))
}

/// Error for a chain write that failed.
pub fn chain_write_failed(detail: &str) -> (r: RpcError)
    ensures
        is_error(r, INTERNAL_ERROR, "blockchain write failed: "@ + detail@),
{
    proof {
        reveal_strlit("blockchain write failed: ");
    }
    RpcError::new(INTERNAL_ERROR, concat2("blockchain write failed: ", detail))
}

/// Error for a dashboard that could not be written to disk.
pub fn persist_failed(detail: &str) -> (r: RpcError)
    ensures
        is_error(r, INTERNAL_ERROR, "failed to persist dashboard: "@ + detail@),
{
    proof {
        reveal_strlit("failed to persist dashboard: ");
    }
    RpcError::new(INTERNAL_ERROR, concat2("failed to persist dashboard: ", detail))
}

/// The reply to a deployed dashboard.
pub fn deployed_reply(
    name: &str,
    version: &str,
    domain: &str,
    content_hash: &[u8],
    block: u64,
    files: u64,
) -> (r: JsonValue)
    ensures
        r@ == JsonModel::Object(
            seq![
                ("status"@, JsonModel::Str("deployed"@)),
                ("name"@, JsonModel::Str(name@)),
                ("version"@, JsonModel::Str(version@)),
                ("domain"@, JsonModel::Str(domain@)),
                ("hash"@, JsonModel::Str(hex_text(content_hash@))),
                ("block"@, JsonModel::UInt(block)),
                ("files"@, JsonModel::UInt(files)),
            ],
        ),
{
    proof {
        reveal_strlit("deployed");
    }
    let mut entries: Vec<(String, JsonValue)> = Vec::new();
    proof {
        lemma_entry_models_of_len(entries@);
        assert(entry_models_of(entries@) =~= Seq::empty());
    }
    push_entry(&mut entries, "status", JsonValue::from_str_slice("deployed"));
    push_entry(&mut entries, "name", JsonValue::from_str_slice(name));
    push_entry(&mut entries, "version", JsonValue::from_str_slice(version));
    push_entry(&mut entries, "domain", JsonValue::from_str_slice(domain));
    push_entry(&mut entries, "hash", JsonValue::Str(hex_encode(content_hash)));
    push_entry(&mut entries, "block", JsonValue::UInt(block));
    push_entry(&mut entries, "files", JsonValue::UInt(files));
    assert(entry_models_of(entries@) =~= seq![
        ("status"@, JsonModel::Str("deployed"@)),
        ("name"@, JsonModel::Str(name@)),
        ("version"@, JsonModel::Str(version@)),
        ("domain"@, JsonModel::Str(domain@)),
        ("hash"@, JsonModel::Str(hex_text(content_hash@))),
        ("block"@, JsonModel::UInt(block)),
        ("files"@, JsonModel::UInt(files)),
    ]);
    JsonValue::Object(entries)
}

/// A deployed dashboard's manifest, as the listings show it; the
/// description and access lists are given in their JSON form.
#[derive(Debug)]
pub struct ManifestView {
    pub name: String,
    pub version: String,
    pub domain: String,
    pub description: JsonValue,
}

/// One entry of `dashboard.list`.
#[derive(Debug)]
pub enum DashboardListing {
    /// The manifest was read.
    Manifest(ManifestView),
    /// The dashboard of this name has a manifest that does not parse.
    Unparsed(String),
}

pub open spec fn listing_json(l: DashboardListing) -> JsonModel {
    match l {
        DashboardListing::Manifest(m) => JsonModel::Object(
            seq![
                ("name"@, JsonModel::Str(m.name@)),
                ("version"@, JsonModel::Str(m.version@)),
                ("domain"@, JsonModel::Str(m.domain@)),
                ("description"@, m.description@),
            ],
        ),
        DashboardListing::Unparsed(n) => JsonModel::Object(
            seq![
                ("name"@, JsonModel::Str(n@)),
                ("error"@, JsonModel::Str("failed to parse manifest"@)),
            ],
        ),
    }
}

fn listing_value(l: &DashboardListing) -> (r: JsonValue)
    ensures
        r@ == listing_json(*l),
{
    proof {
        reveal_strlit("failed to parse manifest");
    }
    let mut e = new_entries();
    match l {
        DashboardListing::Manifest(m) => {
            push_entry(&mut e, "name", JsonValue::from_str_slice(m.name.as_str()));
            push_entry(&mut e, "version", JsonValue::from_str_slice(m.version.as_str()));
            push_entry(&mut e, "domain", JsonValue::from_str_slice(m.domain.as_str()));
            push_entry(&mut e, "description", m.description.duplicate());
            assert(entry_models_of(e@) =~= seq![
                ("name"@, JsonModel::Str(m.name@)),
                ("version"@, JsonModel::Str(m.version@)),
                ("domain"@, JsonModel::Str(m.domain@)),
                ("description"@, m.description@),
            ]);
        },
        DashboardListing::Unparsed(n) => {
            push_entry(&mut e, "name", JsonValue::from_str_slice(n.as_str()));
            push_entry(&mut e, "error", JsonValue::from_str_slice("failed to parse manifest"));
            assert(entry_models_of(e@) =~= seq![
                ("name"@, JsonModel::Str(n@)),
                ("error"@, JsonModel::Str("failed to parse manifest"@)),
            ]);
        },
    }
    JsonValue::Object(e)
}

/// Reply to `dashboard.list`: the number of dashboards and each one.
pub fn dashboard_list_reply(listings: &Vec<DashboardListing>) -> (r: JsonValue)
    ensures
        r@ == JsonModel::Object(
            seq![
                ("count"@, JsonModel::UInt(listings@.len() as u64)),
                (
                    "dashboards"@,
                    JsonModel::Array(listings@.map_values(|l: DashboardListing| listing_json(l))),
                ),
            ],
        ),
{
    let mut items = new_items();
    let mut i: usize = 0;
    while i < listings.len()
        invariant
            i <= listings@.len(),
            models_of(items@) == listings@.take(i as int).map_values(
                |l: DashboardListing| listing_json(l),
            ),
        decreases listings@.len() - i,
    {
        let ghost before = models_of(items@);
        push_item(&mut items, listing_value(&listings[i]));
        assert(listings@.take(i + 1) =~= listings@.take(i as int).push(listings@[i as int]));
        assert(listings@.take(i + 1).map_values(|l: DashboardListing| listing_json(l)) =~= before.push(
            listing_json(listings@[i as int]),
        ));
        i = i + 1;
    }
    assert(listings@.take(listings@.len() as int) =~= listings@);
    let mut entries = new_entries();
    push_entry(&mut entries, "count", JsonValue::UInt(listings.len() as u64));
    push_entry(&mut entries, "dashboards", JsonValue::Array(items));
    assert(entry_models_of(entries@) =~= seq![
        ("count"@, JsonModel::UInt(listings@.len() as u64)),
        (
            "dashboards"@,
            JsonModel::Array(listings@.map_values(|l: DashboardListing| listing_json(l))),
        ),
    ]);
    JsonValue::Object(entries)
}

/// The dashboard a `dashboard.info` call names.
pub fn dashboard_info_name(params: &JsonValue) -> (r: Result<String, RpcError>)
    ensures
        match json_get_str(params@, "name"@) {
            Some(n) => r matches Ok(s) && s@ == n,
            None => r matches Err(e) && is_error(e, INVALID_PARAMS, "missing 'name' parameter"@),
        },
{
    proof {
        reveal_strlit("missing 'name' parameter");
    }
    match params.get_str("name") {
        Some(n) => Ok(String::from_str(n)),
        None => Err(RpcError::new(INVALID_PARAMS, String::from_str("missing 'name' parameter"))),
    }
}

/// Who may open a dashboard, each list in its JSON form.
#[derive(Debug)]
pub struct AccessView {
    pub public: JsonValue,
    pub private: JsonValue,
    pub admin: JsonValue,
}

/// Reply to `dashboard.info` for a deployed dashboard: its manifest, the
/// number of files it serves (the manifest itself not counted) and who may
/// open it.
pub fn dashboard_info_reply(m: &ManifestView, files: u64, access: &AccessView) -> (r: JsonValue)
    ensures
        r@ == JsonModel::Object(
            seq![
                ("name"@, JsonModel::Str(m.name@)),
                ("version"@, JsonModel::Str(m.version@)),
                ("domain"@, JsonModel::Str(m.domain@)),
                ("description"@, m.description@),
                ("found"@, JsonModel::Bool(true)),
                ("files"@, JsonModel::UInt(files)),
                (
                    "access"@,
                    JsonModel::Object(
                        seq![
                            ("public"@, access.public@),
                            ("private"@, access.private@),
                            ("admin"@, access.admin@),
                        ],
                    ),
                ),
            ],
        ),
{
    let mut acc = new_entries();
    push_entry(&mut acc, "public", access.public.duplicate());
    push_entry(&mut acc, "private", access.private.duplicate());
    push_entry(&mut acc, "admin", access.admin.duplicate());
    let ghost av = seq![
        ("public"@, access.public@),
        ("private"@, access.private@),
        ("admin"@, access.admin@),
    ];
    assert(entry_models_of(acc@) =~= av);
    let mut entries = new_entries();
    push_entry(&mut entries, "name", JsonValue::from_str_slice(m.name.as_str()));
    push_entry(&mut entries, "version", JsonValue::from_str_slice(m.version.as_str()));
    push_entry(&mut entries, "domain", JsonValue::from_str_slice(m.domain.as_str()));
    push_entry(&mut entries, "description", m.description.duplicate());
    push_entry(&mut entries, "found", JsonValue::Bool(true));
    push_entry(&mut entries, "files", JsonValue::UInt(files));
    push_entry(&mut entries, "access", JsonValue::Object(acc));
    assert(entry_models_of(entries@) =~= seq![
        ("name"@, JsonModel::Str(m.name@)),
        ("version"@, JsonModel::Str(m.version@)),
        ("domain"@, JsonModel::Str(m.domain@)),
        ("description"@, m.description@),
        ("found"@, JsonModel::Bool(true)),
        ("files"@, JsonModel::UInt(files)),
        ("access"@, JsonModel::Object(av)),
    ]);
    JsonValue::Object(entries)
}

/// Reply to `dashboard.info` for a name with no deployed dashboard.
pub fn dashboard_not_found_reply(name: &str) -> (r: JsonValue)
    ensures
        r@ == JsonModel::Object(
            seq![("name"@, JsonModel::Str(name@)), ("found"@, JsonModel::Bool(false))],
        ),
{
    let mut entries = new_entries();
    push_entry(&mut entries, "name", JsonValue::from_str_slice(name));
    push_entry(&mut entries, "found", JsonValue::Bool(false));
    assert(entry_models_of(entries@) =~= seq![
        ("name"@, JsonModel::Str(name@)),
        ("found"@, JsonModel::Bool(false)),
    ]);
    JsonValue::Object(entries)
}

} // verus!
