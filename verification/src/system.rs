//! The release-update rules: which cached release an update names, the
//! checks a release must pass (foundation key, signature, protocol major,
//! minimum running version), the binary hash check before a swap, and the
//! replies and errors of `system.check_update` and `system.apply_update`.
//!
//! The signature check and the version comparison are made by the caller;
//! their outcomes come in as `GateFacts`.

use vstd::prelude::*;
use crate::capability::{ascii_lower, to_ascii_lowercase};
use crate::codecs::{base64_decode, base64_standard_decode, hex_encode, hex_text, sha256, sha256_digest};
use crate::json::{JsonModel, JsonValue, json_get, json_get_str, push_entry};
use crate::protocol::{
    RpcError, INTERNAL_ERROR, INVALID_PARAMS, PROTOCOL_VERSION_MISMATCH, is_error,
    ipc_protocol_version, ipc_protocol_version_string, major_or_zero, protocol_versions_compatible,
};
use crate::table::{tmap, unique_keys, table_find, lemma_tmap_index};
use crate::text::{concat2, concat3, copy_string, str_eq};

verus! {

/// Release channel.
#[derive(PartialEq, Eq, Structural, Clone, Copy, Debug)]
pub enum ReleaseChannel {
    Stable,
    Beta,
    Nightly,
}

/// Name of a channel.
pub open spec fn channel_name(c: ReleaseChannel) -> Seq<char> {
    match c {
        ReleaseChannel::Stable => "stable"@,
        ReleaseChannel::Beta => "beta"@,
        ReleaseChannel::Nightly => "nightly"@,
    }
}

/// The channel a name stands for.
pub open spec fn channel_from_name(s: Seq<char>) -> Option<ReleaseChannel> {
    if s == "stable"@ {
        Some(ReleaseChannel::Stable)
    } else if s == "beta"@ {
        Some(ReleaseChannel::Beta)
    } else if s == "nightly"@ {
        Some(ReleaseChannel::Nightly)
    } else {
        None
    }
}

impl ReleaseChannel {
    /// The channel's name.
    pub fn as_str(&self) -> (r: &'static str)
        ensures
            r@ == channel_name(*self),
    {
        match self {
            ReleaseChannel::Stable => "stable",
            ReleaseChannel::Beta => "beta",
            ReleaseChannel::Nightly => "nightly",
        }
    }

    /// The channel called `s`.
    pub fn parse(s: &str) -> (r: Option<ReleaseChannel>)
        ensures
            r == channel_from_name(s@),
    {
        if str_eq(s, "stable") {
            Some(ReleaseChannel::Stable)
        } else if str_eq(s, "beta") {
            Some(ReleaseChannel::Beta)
        } else if str_eq(s, "nightly") {
            Some(ReleaseChannel::Nightly)
        } else {
            None
        }
    }
}

/// A cached release-feed entry (the fields the update rules read).
#[derive(Debug)]
pub struct ReleaseEntry {
    pub version: String,
    pub channel: ReleaseChannel,
    /// Signed SHA-256 hex digest of the binary, per target triple.
    pub binary_hashes: Vec<(String, String)>,
    pub release_notes_url: String,
    pub requires_min_version: Option<String>,
    pub breaking_changes: bool,
}

/// Why a release may not be applied.
#[derive(Debug)]
pub enum ApplyUpdateError {
    SignatureInvalid,
    NoFoundationKey,
    VersionIncompatible { release: String, daemon: String },
    MinVersionUnmet { required: String, running: String },
    HashMismatch { expected: String, actual: String },
    Io(String),
}

/// Outcomes of the checks made by the caller before admission.
#[derive(PartialEq, Eq, Structural, Clone, Copy, Debug)]
pub struct GateFacts {
    /// A foundation public key is configured.
    pub foundation_key_present: bool,
    /// The release signature verifies against that key.
    pub signature_valid: bool,
    /// The running version is older than the release's minimum.
    pub running_below_min: bool,
}

/// Model of an admission error: which error, and its two texts.
pub enum GateError {
    SignatureInvalid,
    NoFoundationKey,
    VersionIncompatible(Seq<char>, Seq<char>),
    MinVersionUnmet(Seq<char>, Seq<char>),
}

/// The admission checks of a release, in order: a foundation key must be
/// configured, the signature must verify, the release's protocol major must
/// equal the running one, and when the release names a minimum version the
/// running version must not be older.
pub open spec fn gate_spec(
    version: Seq<char>,
    requires_min_version: Option<Seq<char>>,
    facts: GateFacts,
    running: Seq<char>,
) -> Result<(), GateError> {
    if !facts.foundation_key_present {
        Err(GateError::NoFoundationKey)
    } else if !facts.signature_valid {
        Err(GateError::SignatureInvalid)
    } else if major_or_zero(version) != major_or_zero(running) {
        Err(GateError::VersionIncompatible(version, running))
    } else if requires_min_version is Some && facts.running_below_min {
        Err(GateError::MinVersionUnmet(requires_min_version->0, running))
    } else {
        Ok(())
    }
}

/// Model of an apply error.
pub open spec fn gate_error_of(e: ApplyUpdateError) -> Option<GateError> {
    match e {
        ApplyUpdateError::SignatureInvalid => Some(GateError::SignatureInvalid),
        ApplyUpdateError::NoFoundationKey => Some(GateError::NoFoundationKey),
        ApplyUpdateError::VersionIncompatible { release, daemon } => Some(
            GateError::VersionIncompatible(release@, daemon@),
        ),
        ApplyUpdateError::MinVersionUnmet { required, running } => Some(
            GateError::MinVersionUnmet(required@, running@),
        ),
        _ => None,
    }
}

/// Gate a release (see `gate_spec`).
pub fn verify_and_gate(
    version: &str,
    requires_min_version: Option<&str>,
    facts: GateFacts,
    running_version: &str,
) -> (r: Result<(), ApplyUpdateError>)
    ensures
        match gate_spec(
            version@,
            match requires_min_version { Some(m) => Some(m@), None => None },
            facts,
            running_version@,
        ) {
            Ok(()) => r is Ok,
            Err(g) => r matches Err(e) && gate_error_of(e) == Some(g),
        },
{
    if !facts.foundation_key_present {
        return Err(ApplyUpdateError::NoFoundationKey);
    }
    if !facts.signature_valid {
        return Err(ApplyUpdateError::SignatureInvalid);
    }
    if !protocol_versions_compatible(version, running_version) {
        return Err(
            ApplyUpdateError::VersionIncompatible {
                release: String::from_str(version),
                daemon: String::from_str(running_version),
            },
        );
    }
    match requires_min_version {
        Some(min) => {
            if facts.running_below_min {
                return Err(
                    ApplyUpdateError::MinVersionUnmet {
                        required: String::from_str(min),
                        running: String::from_str(running_version),
                    },
                );
            }
        },
        None => {},
    }
    Ok(())
}

/// The error code and message an apply error is reported with.
pub open spec fn apply_error_spec(e: ApplyUpdateError) -> (i64, Seq<char>) {
    match e {
        ApplyUpdateError::SignatureInvalid => (
            INVALID_PARAMS,
            "release signature failed FALCON-1024 verification; refusing to apply"@,
        ),
        ApplyUpdateError::NoFoundationKey => (
            INTERNAL_ERROR,
            "no foundation public key configured; cannot verify release"@,
        ),
        ApplyUpdateError::VersionIncompatible { release, daemon } => (
            PROTOCOL_VERSION_MISMATCH,
            "release "@ + release@ + " is protocol-incompatible with daemon "@ + daemon@
                + " (major version differs); refusing to apply"@,
        ),
        ApplyUpdateError::MinVersionUnmet { required, running } => (
            INVALID_PARAMS,
            "release requires_min_version "@ + required@ + " is newer than running "@ + running@
                + "; upgrade to the required compatibility step first"@,
        ),
        ApplyUpdateError::HashMismatch { expected, actual } => (
            INVALID_PARAMS,
            "staged binary hash "@ + actual@ + " does not match signed hash "@ + expected@
                + "; refusing to swap"@,
        ),
        ApplyUpdateError::Io(msg) => (INTERNAL_ERROR, "binary swap failed: "@ + msg@),
    }
}

fn join5(a: &str, b: &str, c: &str, d: &str, e: &str) -> (r: String)
    ensures
        r@ == a@ + b@ + c@ + d@ + e@,
{
    let x = concat3(a, b, c);
    concat3(x.as_str(), d, e)
}

/// The JSON-RPC error an apply error is reported with.
pub fn apply_error_to_rpc(e: ApplyUpdateError) -> (r: RpcError)
    ensures
        is_error(r, apply_error_spec(e).0, apply_error_spec(e).1),
{
    proof {
        reveal_strlit("release signature failed FALCON-1024 verification; refusing to apply");
        reveal_strlit("no foundation public key configured; cannot verify release");
        reveal_strlit("release ");
        reveal_strlit(" is protocol-incompatible with daemon ");
        reveal_strlit(" (major version differs); refusing to apply");
        reveal_strlit("release requires_min_version ");
        reveal_strlit(" is newer than running ");
        reveal_strlit("; upgrade to the required compatibility step first");
        reveal_strlit("staged binary hash ");
        reveal_strlit(" does not match signed hash ");
        reveal_strlit("; refusing to swap");
        reveal_strlit("binary swap failed: ");
    }
    match e {
        ApplyUpdateError::SignatureInvalid => RpcError::new(
            INVALID_PARAMS,
            String::from_str("release signature failed FALCON-1024 verification; refusing to apply"),
        ),
        ApplyUpdateError::NoFoundationKey => RpcError::new(
            INTERNAL_ERROR,
            String::from_str("no foundation public key configured; cannot verify release"),
        ),
        ApplyUpdateError::VersionIncompatible { release, daemon } => RpcError::new(
            PROTOCOL_VERSION_MISMATCH,
            join5(
                "release ",
                release.as_str(),
                " is protocol-incompatible with daemon ",
                daemon.as_str(),
                " (major version differs); refusing to apply",
            ),
        ),
        ApplyUpdateError::MinVersionUnmet { required, running } => RpcError::new(
            INVALID_PARAMS,
            join5(
                "release requires_min_version ",
                required.as_str(),
                " is newer than running ",
                running.as_str(),
                "; upgrade to the required compatibility step first",
            ),
        ),
        ApplyUpdateError::HashMismatch { expected, actual } => RpcError::new(
            INVALID_PARAMS,
            join5(
                "staged binary hash ",
                actual.as_str(),
                " does not match signed hash ",
                expected.as_str(),
                "; refusing to swap",
            ),
        ),
        ApplyUpdateError::Io(msg) => RpcError::new(
            INTERNAL_ERROR,
            concat2("binary swap failed: ", msg.as_str()),
        ),
    }
}

/// Whether two texts are equal ignoring ASCII case.
pub fn eq_ignore_ascii_case(a: &str, b: &str) -> (r: bool)
    ensures
        r == (ascii_lower(a@) == ascii_lower(b@)),
{
    let la = to_ascii_lowercase(a);
    let lb = to_ascii_lowercase(b);
    str_eq(la.as_str(), lb.as_str())
}

/// Lower-case hex SHA-256 digest of `bytes`.
pub fn sha256_hex(bytes: &[u8]) -> (r: String)
    ensures
        r@ == hex_text(sha256_digest(bytes@)),
{
    let digest = sha256(bytes);
    hex_encode(digest.as_slice())
}

/// Check a candidate binary against its signed hash (ignoring ASCII case)
/// before it may be staged.
pub fn check_binary_hash(candidate: &[u8], expected_hash: &str) -> (r: Result<(), ApplyUpdateError>)
    ensures
        ascii_lower(hex_text(sha256_digest(candidate@))) == ascii_lower(expected_hash@) ==> r is Ok,
        ascii_lower(hex_text(sha256_digest(candidate@))) != ascii_lower(expected_hash@) ==> (
        r matches Err(ApplyUpdateError::HashMismatch { expected, actual }) && expected@
            == expected_hash@ && actual@ == hex_text(sha256_digest(candidate@))),
{
    let actual = sha256_hex(candidate);
    if eq_ignore_ascii_case(actual.as_str(), expected_hash) {
        Ok(())
    } else {
        Err(ApplyUpdateError::HashMismatch { expected: String::from_str(expected_hash), actual })
    }
}

/// Message for an unknown channel name.
pub open spec fn invalid_channel_message(s: Seq<char>) -> Seq<char> {
    "invalid channel '"@ + s + "': expected stable|beta|nightly"@
}

/// The `channel` parameter: stable when absent.
pub open spec fn channel_param_spec(params: JsonModel) -> Result<ReleaseChannel, Seq<char>> {
    match json_get_str(params, "channel"@) {
        None => Ok(ReleaseChannel::Stable),
        Some(s) => match channel_from_name(s) {
            Some(c) => Ok(c),
            None => Err(invalid_channel_message(s)),
        },
    }
}

/// Read the `channel` parameter (see `channel_param_spec`).
pub fn parse_channel(params: &JsonValue) -> (r: Result<ReleaseChannel, RpcError>)
    ensures
        match channel_param_spec(params@) {
            Ok(c) => r matches Ok(x) && x == c,
            Err(m) => r matches Err(e) && is_error(e, INVALID_PARAMS, m),
        },
{
    match params.get_str("channel") {
        None => Ok(ReleaseChannel::Stable),
        Some(s) => match ReleaseChannel::parse(s) {
            Some(c) => Ok(c),
            None => {
                proof {
                    reveal_strlit("invalid channel '");
                    reveal_strlit("': expected stable|beta|nightly");
                }
                Err(
                    RpcError::new(
                        INVALID_PARAMS,
                        concat3("invalid channel '", s, "': expected stable|beta|nightly"),
                    ),
                )
            },
        },
    }
}

/// The `system.check_update` reply: up to date when no feed is configured
/// (with a note), when the feed has no entry, or when the latest entry is
/// the running version; otherwise the available release.
pub open spec fn check_update_spec(
    channel: ReleaseChannel,
    feed_configured: bool,
    latest: Option<(Seq<char>, Seq<char>, bool, Option<Seq<char>>)>,
) -> JsonModel {
    let cur = JsonModel::Str(ipc_protocol_version());
    let ch = JsonModel::Str(channel_name(channel));
    if !feed_configured {
        JsonModel::Object(
            seq![
                ("up_to_date"@, JsonModel::Bool(true)),
                ("current_version"@, cur),
                ("channel"@, ch),
                ("note"@, JsonModel::Str("release feed not configured (alpha-default inert)"@)),
            ],
        )
    } else {
        match latest {
            Some((version, notes, breaking, min)) => if version != ipc_protocol_version() {
                JsonModel::Object(
                    seq![
                        ("up_to_date"@, JsonModel::Bool(false)),
                        ("available_version"@, JsonModel::Str(version)),
                        ("current_version"@, cur),
                        ("channel"@, ch),
                        ("release_notes_url"@, JsonModel::Str(notes)),
                        ("breaking_changes"@, JsonModel::Bool(breaking)),
                        ("requires_min_version"@, match min {
                            Some(m) => JsonModel::Str(m),
                            None => JsonModel::Null,
                        }),
                    ],
                )
            } else {
                JsonModel::Object(
                    seq![
                        ("up_to_date"@, JsonModel::Bool(true)),
                        ("current_version"@, cur),
                        ("channel"@, ch),
                    ],
                )
            },
            None => JsonModel::Object(
                seq![
                    ("up_to_date"@, JsonModel::Bool(true)),
                    ("current_version"@, cur),
                    ("channel"@, ch),
                ],
            ),
        }
    }
}

/// Model of the release facts a reply shows.
pub open spec fn entry_summary(e: ReleaseEntry) -> (Seq<char>, Seq<char>, bool, Option<Seq<char>>) {
    (
        e.version@,
        e.release_notes_url@,
        e.breaking_changes,
        match e.requires_min_version {
            Some(m) => Some(m@),
            None => None,
        },
    )
}

fn opt_string_json(o: &Option<String>) -> (r: JsonValue)
    ensures
        r@ == match *o {
            Some(m) => JsonModel::Str(m@),
            None => JsonModel::Null,
        },
{
    match o {
        Some(m) => JsonValue::Str(copy_string(m)),
        None => JsonValue::Null,
    }
}

fn up_to_date_reply(channel: ReleaseChannel, with_note: bool) -> (r: JsonValue)
    ensures
        with_note ==> r@ == JsonModel::Object(
            seq![
                ("up_to_date"@, JsonModel::Bool(true)),
                ("current_version"@, JsonModel::Str(ipc_protocol_version())),
                ("channel"@, JsonModel::Str(channel_name(channel))),
                ("note"@, JsonModel::Str("release feed not configured (alpha-default inert)"@)),
            ],
        ),
        !with_note ==> r@ == JsonModel::Object(
            seq![
                ("up_to_date"@, JsonModel::Bool(true)),
                ("current_version"@, JsonModel::Str(ipc_protocol_version())),
                ("channel"@, JsonModel::Str(channel_name(channel))),
            ],
        ),
{
    proof {
        reveal_strlit("release feed not configured (alpha-default inert)");
    }
    let mut entries: Vec<(String, JsonValue)> = Vec::new();
    proof {
        crate::json::lemma_entry_models_of_len(entries@);
        assert(crate::json::entry_models_of(entries@) =~= Seq::empty());
    }
    push_entry(&mut entries, "up_to_date", JsonValue::Bool(true));
    push_entry(&mut entries, "current_version", JsonValue::Str(ipc_protocol_version_string()));
    push_entry(&mut entries, "channel", JsonValue::from_str_slice(channel.as_str()));
    if with_note {
        push_entry(
            &mut entries,
            "note",
            JsonValue::from_str_slice("release feed not configured (alpha-default inert)"),
        );
        assert(crate::json::entry_models_of(entries@) =~= seq![
            ("up_to_date"@, JsonModel::Bool(true)),
            ("current_version"@, JsonModel::Str(ipc_protocol_version())),
            ("channel"@, JsonModel::Str(channel_name(channel))),
            ("note"@, JsonModel::Str("release feed not configured (alpha-default inert)"@)),
        ]);
    } else {
        assert(crate::json::entry_models_of(entries@) =~= seq![
            ("up_to_date"@, JsonModel::Bool(true)),
            ("current_version"@, JsonModel::Str(ipc_protocol_version())),
            ("channel"@, JsonModel::Str(channel_name(channel))),
        ]);
    }
    JsonValue::Object(entries)
}

fn available_reply(channel: ReleaseChannel, e: &ReleaseEntry) -> (r: JsonValue)
    requires
        e.version@ != ipc_protocol_version(),
    ensures
        r@ == check_update_spec(channel, true, Some(entry_summary(*e))),
{
    let mut entries: Vec<(String, JsonValue)> = Vec::new();
    proof {
        crate::json::lemma_entry_models_of_len(entries@);
        assert(crate::json::entry_models_of(entries@) =~= Seq::empty());
    }
    push_entry(&mut entries, "up_to_date", JsonValue::Bool(false));
    push_entry(&mut entries, "available_version", JsonValue::Str(copy_string(&e.version)));
    push_entry(&mut entries, "current_version", JsonValue::Str(ipc_protocol_version_string()));
    push_entry(&mut entries, "channel", JsonValue::from_str_slice(channel.as_str()));
    push_entry(&mut entries, "release_notes_url", JsonValue::Str(copy_string(&e.release_notes_url)));
    push_entry(&mut entries, "breaking_changes", JsonValue::Bool(e.breaking_changes));
    push_entry(&mut entries, "requires_min_version", opt_string_json(&e.requires_min_version));
    let ghost min = entry_summary(*e).3;
    assert(crate::json::entry_models_of(entries@) =~= seq![
        ("up_to_date"@, JsonModel::Bool(false)),
        ("available_version"@, JsonModel::Str(e.version@)),
        ("current_version"@, JsonModel::Str(ipc_protocol_version())),
        ("channel"@, JsonModel::Str(channel_name(channel))),
        ("release_notes_url"@, JsonModel::Str(e.release_notes_url@)),
        ("breaking_changes"@, JsonModel::Bool(e.breaking_changes)),
        ("requires_min_version"@, match min {
            Some(m) => JsonModel::Str(m),
            None => JsonModel::Null,
        }),
    ]);
    JsonValue::Object(entries)
}

/// What `system.check_update` reports: it is up to date unless a feed is
/// configured and its latest entry has a version other than the running
/// one; only then does it offer that version as `available_version`, and
/// it always names the running version and the channel.
pub proof fn law_check_update_offers_only_other_versions(
    channel: ReleaseChannel,
    feed_configured: bool,
    latest: Option<(Seq<char>, Seq<char>, bool, Option<Seq<char>>)>,
)
    ensures
        ({
            let r = check_update_spec(channel, feed_configured, latest);
            let newer = feed_configured && match latest {
                Some(l) => l.0 != ipc_protocol_version(),
                None => false,
            };
            &&& json_get(r, "up_to_date"@) == Some(JsonModel::Bool(!newer))
            &&& match latest {
                Some(l) => newer ==> json_get(r, "available_version"@) == Some(JsonModel::Str(l.0)),
                None => true,
            }
            &&& !newer ==> json_get(r, "available_version"@) is None
            &&& json_get(r, "current_version"@) == Some(JsonModel::Str(ipc_protocol_version()))
            &&& json_get(r, "channel"@) == Some(JsonModel::Str(channel_name(channel)))
        }),
{
    reveal_strlit("up_to_date");
    reveal_strlit("available_version");
    reveal_strlit("current_version");
    reveal_strlit("channel");
    reveal_strlit("note");
    reveal_strlit("release_notes_url");
    reveal_strlit("breaking_changes");
    reveal_strlit("requires_min_version");
    let r = check_update_spec(channel, feed_configured, latest);
    if let JsonModel::Object(es) = r {
        if !feed_configured {
            assert(es[0].0 == "up_to_date"@);
            assert(es[1].0 == "current_version"@);
            assert(es[2].0 == "channel"@);
            assert(es[3].0 == "note"@);
            crate::json::lemma_obj_get_at(es, "up_to_date"@, 0);
            assert("up_to_date"@ != "current_version"@) by { assert("up_to_date"@.len() != "current_version"@.len() || "up_to_date"@[0] != "current_version"@[0]); }
            assert forall|j: int| 0 <= j < 1 implies (#[trigger] es[j]).0 != "current_version"@ by {
                assert(j == 0);
            }
            crate::json::lemma_obj_get_at(es, "current_version"@, 1);
            assert("up_to_date"@ != "channel"@) by { assert("up_to_date"@.len() != "channel"@.len() || "up_to_date"@[0] != "channel"@[0]); }
            assert("current_version"@ != "channel"@) by { assert("current_version"@.len() != "channel"@.len() || "current_version"@[0] != "channel"@[0]); }
            assert forall|j: int| 0 <= j < 2 implies (#[trigger] es[j]).0 != "channel"@ by {
                assert(j == 0 || j == 1);
            }
            crate::json::lemma_obj_get_at(es, "channel"@, 2);
            assert("up_to_date"@ != "available_version"@) by { assert("up_to_date"@.len() != "available_version"@.len() || "up_to_date"@[0] != "available_version"@[0]); }
            assert("current_version"@ != "available_version"@) by { assert("current_version"@.len() != "available_version"@.len() || "current_version"@[0] != "available_version"@[0]); }
            assert("channel"@ != "available_version"@) by { assert("channel"@.len() != "available_version"@.len() || "channel"@[0] != "available_version"@[0]); }
            assert("note"@ != "available_version"@) by { assert("note"@.len() != "available_version"@.len() || "note"@[0] != "available_version"@[0]); }
            assert forall|j: int| 0 <= j < 4 implies (#[trigger] es[j]).0 != "available_version"@ by {
                assert(j == 0 || j == 1 || j == 2 || j == 3);
            }
            crate::json::lemma_obj_get_absent(es, "available_version"@);
        } else {
            match latest {
                Some(l) => {
                    if l.0 != ipc_protocol_version() {
                        assert(es[0].0 == "up_to_date"@);
                        assert(es[1].0 == "available_version"@);
                        assert(es[2].0 == "current_version"@);
                        assert(es[3].0 == "channel"@);
                        assert(es[4].0 == "release_notes_url"@);
                        assert(es[5].0 == "breaking_changes"@);
                        assert(es[6].0 == "requires_min_version"@);
                        crate::json::lemma_obj_get_at(es, "up_to_date"@, 0);
                        assert("up_to_date"@ != "available_version"@) by { assert("up_to_date"@.len() != "available_version"@.len() || "up_to_date"@[0] != "available_version"@[0]); }
                        assert forall|j: int| 0 <= j < 1 implies (#[trigger] es[j]).0 != "available_version"@ by {
                            assert(j == 0);
                        }
                        crate::json::lemma_obj_get_at(es, "available_version"@, 1);
                        assert("up_to_date"@ != "current_version"@) by { assert("up_to_date"@.len() != "current_version"@.len() || "up_to_date"@[0] != "current_version"@[0]); }
                        assert("available_version"@ != "current_version"@) by { assert("available_version"@.len() != "current_version"@.len() || "available_version"@[0] != "current_version"@[0]); }
                        assert forall|j: int| 0 <= j < 2 implies (#[trigger] es[j]).0 != "current_version"@ by {
                            assert(j == 0 || j == 1);
                        }
                        crate::json::lemma_obj_get_at(es, "current_version"@, 2);
                        assert("up_to_date"@ != "channel"@) by { assert("up_to_date"@.len() != "channel"@.len() || "up_to_date"@[0] != "channel"@[0]); }
                        assert("available_version"@ != "channel"@) by { assert("available_version"@.len() != "channel"@.len() || "available_version"@[0] != "channel"@[0]); }
                        assert("current_version"@ != "channel"@) by { assert("current_version"@.len() != "channel"@.len() || "current_version"@[0] != "channel"@[0]); }
                        assert forall|j: int| 0 <= j < 3 implies (#[trigger] es[j]).0 != "channel"@ by {
                            assert(j == 0 || j == 1 || j == 2);
                        }
                        crate::json::lemma_obj_get_at(es, "channel"@, 3);
                    } else {
                        assert(es[0].0 == "up_to_date"@);
                        assert(es[1].0 == "current_version"@);
                        assert(es[2].0 == "channel"@);
                        crate::json::lemma_obj_get_at(es, "up_to_date"@, 0);
                        assert("up_to_date"@ != "current_version"@) by { assert("up_to_date"@.len() != "current_version"@.len() || "up_to_date"@[0] != "current_version"@[0]); }
                        assert forall|j: int| 0 <= j < 1 implies (#[trigger] es[j]).0 != "current_version"@ by {
                            assert(j == 0);
                        }
                        crate::json::lemma_obj_get_at(es, "current_version"@, 1);
                        assert("up_to_date"@ != "channel"@) by { assert("up_to_date"@.len() != "channel"@.len() || "up_to_date"@[0] != "channel"@[0]); }
                        assert("current_version"@ != "channel"@) by { assert("current_version"@.len() != "channel"@.len() || "current_version"@[0] != "channel"@[0]); }
                        assert forall|j: int| 0 <= j < 2 implies (#[trigger] es[j]).0 != "channel"@ by {
                            assert(j == 0 || j == 1);
                        }
                        crate::json::lemma_obj_get_at(es, "channel"@, 2);
                        assert("up_to_date"@ != "available_version"@) by { assert("up_to_date"@.len() != "available_version"@.len() || "up_to_date"@[0] != "available_version"@[0]); }
                        assert("current_version"@ != "available_version"@) by { assert("current_version"@.len() != "available_version"@.len() || "current_version"@[0] != "available_version"@[0]); }
                        assert("channel"@ != "available_version"@) by { assert("channel"@.len() != "available_version"@.len() || "channel"@[0] != "available_version"@[0]); }
                        assert forall|j: int| 0 <= j < 3 implies (#[trigger] es[j]).0 != "available_version"@ by {
                            assert(j == 0 || j == 1 || j == 2);
                        }
                        crate::json::lemma_obj_get_absent(es, "available_version"@);
                    }
                },
                None => {
                    assert(es[0].0 == "up_to_date"@);
                    assert(es[1].0 == "current_version"@);
                    assert(es[2].0 == "channel"@);
                    crate::json::lemma_obj_get_at(es, "up_to_date"@, 0);
                    assert("up_to_date"@ != "current_version"@) by { assert("up_to_date"@.len() != "current_version"@.len() || "up_to_date"@[0] != "current_version"@[0]); }
                    assert forall|j: int| 0 <= j < 1 implies (#[trigger] es[j]).0 != "current_version"@ by {
                        assert(j == 0);
                    }
                    crate::json::lemma_obj_get_at(es, "current_version"@, 1);
                    assert("up_to_date"@ != "channel"@) by { assert("up_to_date"@.len() != "channel"@.len() || "up_to_date"@[0] != "channel"@[0]); }
                    assert("current_version"@ != "channel"@) by { assert("current_version"@.len() != "channel"@.len() || "current_version"@[0] != "channel"@[0]); }
                    assert forall|j: int| 0 <= j < 2 implies (#[trigger] es[j]).0 != "channel"@ by {
                        assert(j == 0 || j == 1);
                    }
                    crate::json::lemma_obj_get_at(es, "channel"@, 2);
                    assert("up_to_date"@ != "available_version"@) by { assert("up_to_date"@.len() != "available_version"@.len() || "up_to_date"@[0] != "available_version"@[0]); }
                    assert("current_version"@ != "available_version"@) by { assert("current_version"@.len() != "available_version"@.len() || "current_version"@[0] != "available_version"@[0]); }
                    assert("channel"@ != "available_version"@) by { assert("channel"@.len() != "available_version"@.len() || "channel"@[0] != "available_version"@[0]); }
                    assert forall|j: int| 0 <= j < 3 implies (#[trigger] es[j]).0 != "available_version"@ by {
                        assert(j == 0 || j == 1 || j == 2);
                    }
                    crate::json::lemma_obj_get_absent(es, "available_version"@);
                },
            }
        }
    }
}

/// Build the `system.check_update` reply (see `check_update_spec`).
pub fn check_update_reply(channel: ReleaseChannel, feed_configured: bool, latest: Option<&ReleaseEntry>) -> (r: JsonValue)
    ensures
        r@ == check_update_spec(
            channel,
            feed_configured,
            match latest {
                Some(e) => Some(entry_summary(*e)),
                None => None,
            },
        ),
{
    if !feed_configured {
        return up_to_date_reply(channel, true);
    }
    match latest {
        Some(e) => {
            let cur = ipc_protocol_version_string();
            if str_eq(e.version.as_str(), cur.as_str()) {
                up_to_date_reply(channel, false)
            } else {
                available_reply(channel, e)
            }
        },
        None => up_to_date_reply(channel, false),
    }
}

/// Target triple assumed when an update names none.
pub open spec fn default_target_triple() -> Seq<char> {
    "x86_64-unknown-linux-musl"@
}

/// Install path assumed when an update names none.
pub open spec fn default_install_path() -> Seq<char> {
    "/usr/local/bin/hypermesh"@
}

/// The parameters of a `system.apply_update` call.
#[derive(Debug)]
pub struct UpdateRequest {
    pub target_version: String,
    pub channel: ReleaseChannel,
    pub target_triple: String,
    pub install_path: String,
    pub binary_b64: Option<String>,
}

/// The checks on `system.apply_update` parameters: a `version` string is
/// required, the channel must be known; target and install path default.
pub open spec fn update_request_spec(params: JsonModel) -> Result<
    (Seq<char>, ReleaseChannel, Seq<char>, Seq<char>, Option<Seq<char>>),
    Seq<char>,
> {
    match json_get_str(params, "version"@) {
        None => Err("missing 'version' parameter"@),
        Some(v) => match channel_param_spec(params) {
            Err(m) => Err(m),
            Ok(c) => Ok(
                (
                    v,
                    c,
                    match json_get_str(params, "target"@) {
                        Some(t) => t,
                        None => default_target_triple(),
                    },
                    match json_get_str(params, "install_path"@) {
                        Some(p) => p,
                        None => default_install_path(),
                    },
                    json_get_str(params, "binary"@),
                ),
            ),
        },
    }
}

fn opt_text(o: Option<&str>) -> (r: Option<String>)
    ensures
        match o {
            Some(s) => r matches Some(t) && t@ == s@,
            None => r is None,
        },
{
    match o {
        Some(s) => Some(String::from_str(s)),
        None => None,
    }
}

/// Read the parameters of `system.apply_update` (see
/// `update_request_spec`); refusals are `INVALID_PARAMS` errors.
pub fn parse_update_request(params: &JsonValue) -> (r: Result<UpdateRequest, RpcError>)
    ensures
        match update_request_spec(params@) {
            Ok((v, c, t, p, b)) => r matches Ok(req) && req.target_version@ == v && req.channel == c
                && req.target_triple@ == t && req.install_path@ == p && match req.binary_b64 {
                Some(x) => b == Some(x@),
                None => b is None,
            },
            Err(m) => r matches Err(e) && is_error(e, INVALID_PARAMS, m),
        },
{
    proof {
        reveal_strlit("missing 'version' parameter");
        reveal_strlit("x86_64-unknown-linux-musl");
        reveal_strlit("/usr/local/bin/hypermesh");
    }
    let version = match params.get_str("version") {
        Some(v) => v,
        None => {
            return Err(RpcError::new(INVALID_PARAMS, String::from_str("missing 'version' parameter")));
        },
    };
    let channel = match parse_channel(params) {
        Ok(c) => c,
        Err(e) => {
            return Err(e);
        },
    };
    let target = match params.get_str("target") {
        Some(t) => t,
        None => "x86_64-unknown-linux-musl",
    };
    let install = match params.get_str("install_path") {
        Some(p) => p,
        None => "/usr/local/bin/hypermesh",
    };
    Ok(
        UpdateRequest {
            target_version: String::from_str(version),
            channel,
            target_triple: String::from_str(target),
            install_path: String::from_str(install),
            binary_b64: opt_text(params.get_str("binary")),
        },
    )
}

/// Message for an update whose release is not cached: the update is not
/// configured for that version.
pub open spec fn no_entry_message(version: Seq<char>, channel: ReleaseChannel) -> Seq<char> {
    "release not configured: no cached release entry for version '"@ + version + "' on channel '"@ + channel_name(channel)
        + "'"@
}

/// Message when no release feed is configured.
pub open spec fn feed_not_configured_message() -> Seq<char> {
    "release feed not configured (alpha-default inert); set release_feed_subscriber on daemon startup to opt-in"@
}

/// Pick the cached release an update names: the first entry on the
/// requested channel with the requested version. Without a feed, or without
/// such an entry, the update is not configured (`INTERNAL_ERROR` without a
/// feed, `INVALID_PARAMS` without an entry).
pub fn select_release(req: &UpdateRequest, feed_configured: bool, entries: &Vec<ReleaseEntry>) -> (r: Result<usize, RpcError>)
    ensures
        !feed_configured ==> (r matches Err(e) && is_error(e, INTERNAL_ERROR, feed_not_configured_message())),
        feed_configured ==> match r {
            Ok(i) => i < entries@.len() && entries@[i as int].channel == req.channel
                && entries@[i as int].version@ == req.target_version@ && forall|j: int|
                0 <= j < i ==> !((#[trigger] entries@[j]).channel == req.channel && entries@[j].version@
                    == req.target_version@),
            Err(e) => (forall|j: int|
                0 <= j < entries@.len() ==> !((#[trigger] entries@[j]).channel == req.channel
                    && entries@[j].version@ == req.target_version@)) && is_error(
                e,
                INVALID_PARAMS,
                no_entry_message(req.target_version@, req.channel),
            ),
        },
{
    proof {
        reveal_strlit("release feed not configured (alpha-default inert); set release_feed_subscriber on daemon startup to opt-in");
        reveal_strlit("release not configured: no cached release entry for version '");
        reveal_strlit("' on channel '");
        reveal_strlit("'");
    }
    if !feed_configured {
        return Err(
            RpcError::new(
                INTERNAL_ERROR,
                String::from_str(
                    "release feed not configured (alpha-default inert); set release_feed_subscriber on daemon startup to opt-in",
                ),
            ),
        );
    }
    let mut i: usize = 0;
    while i < entries.len()
        invariant
            i <= entries@.len(),
            feed_configured,
            forall|j: int|
                0 <= j < i ==> !((#[trigger] entries@[j]).channel == req.channel && entries@[j].version@
                    == req.target_version@),
        decreases entries@.len() - i,
    {
        if entries[i].channel == req.channel && str_eq(
            entries[i].version.as_str(),
            req.target_version.as_str(),
        ) {
            return Ok(i);
        }
        i = i + 1;
    }
    let msg = join5(
        "release not configured: no cached release entry for version '",
        req.target_version.as_str(),
        "' on channel '",
        req.channel.as_str(),
        "'",
    );
    Err(RpcError::new(INVALID_PARAMS, msg))
}

/// Message for a release with no hash for the requested target.
pub open spec fn no_hash_message(version: Seq<char>, triple: Seq<char>) -> Seq<char> {
    "release entry for "@ + version + " has no binary hash for target '"@ + triple + "'"@
}

/// The signed hash of the requested target's binary.
pub fn expected_binary_hash(req: &UpdateRequest, entry: &ReleaseEntry) -> (r: Result<String, RpcError>)
    requires
        unique_keys(entry.binary_hashes@),
    ensures
        tmap(entry.binary_hashes@).contains_key(req.target_triple@) ==> (r matches Ok(h) && h@ == tmap(
            entry.binary_hashes@,
        )[req.target_triple@]@),
        !tmap(entry.binary_hashes@).contains_key(req.target_triple@) ==> (r matches Err(e) && is_error(
            e,
            INVALID_PARAMS,
            no_hash_message(req.target_version@, req.target_triple@),
        )),
{
    match table_find(&entry.binary_hashes, req.target_triple.as_str()) {
        Some(i) => {
            proof {
                lemma_tmap_index(entry.binary_hashes@, i as int);
            }
            Ok(copy_string(&entry.binary_hashes[i].1))
        },
        None => {
            proof {
                reveal_strlit("release entry for ");
                reveal_strlit(" has no binary hash for target '");
                reveal_strlit("'");
            }
            Err(
                RpcError::new(
                    INVALID_PARAMS,
                    join5(
                        "release entry for ",
                        req.target_version.as_str(),
                        " has no binary hash for target '",
                        req.target_triple.as_str(),
                        "'",
                    ),
                ),
            )
        },
    }
}

/// Decode the base64 `binary` parameter of an update.
pub fn decode_candidate(b64: &str) -> (r: Result<Vec<u8>, RpcError>)
    ensures
        match base64_standard_decode(b64@) {
            Ok(bytes) => r matches Ok(v) && v@ == bytes,
            Err(m) => r matches Err(e) && is_error(e, INVALID_PARAMS, "'binary' is not valid base64: "@ + m),
        },
{
    match base64_decode(b64) {
        Ok(v) => Ok(v),
        Err(m) => {
            proof {
                reveal_strlit("'binary' is not valid base64: ");
            }
            Err(RpcError::new(INVALID_PARAMS, concat2("'binary' is not valid base64: ", m.as_str())))
        },
    }
}

/// The reply to an admitted update that brought no binary.
pub open spec fn authorized_spec(
    version: Seq<char>,
    channel: ReleaseChannel,
    triple: Seq<char>,
    install_path: Seq<char>,
    notes: Seq<char>,
    hash: Seq<char>,
    breaking: bool,
) -> JsonModel {
    JsonModel::Object(
        seq![
            ("status"@, JsonModel::Str("authorized"@)),
            ("applied"@, JsonModel::Bool(false)),
            ("staged"@, JsonModel::Bool(false)),
            ("version"@, JsonModel::Str(version)),
            ("channel"@, JsonModel::Str(channel_name(channel))),
            ("target"@, JsonModel::Str(triple)),
            ("install_path"@, JsonModel::Str(install_path)),
            ("release_notes_url"@, JsonModel::Str(notes)),
            ("expected_binary_hash"@, JsonModel::Str(hash)),
            ("breaking_changes"@, JsonModel::Bool(breaking)),
            ("note"@, JsonModel::Str(
                "signature + version compatibility verified; supply base64 'binary' to stage and atomically swap"@,
            )),
        ],
    )
}

/// Build the reply to an authorized update.
pub fn authorized_reply(req: &UpdateRequest, entry: &ReleaseEntry, expected_hash: &str) -> (r: JsonValue)
    ensures
        r@ == authorized_spec(
            entry.version@,
            req.channel,
            req.target_triple@,
            req.install_path@,
            entry.release_notes_url@,
            expected_hash@,
            entry.breaking_changes,
        ),
{
    proof {
        reveal_strlit("authorized");
        reveal_strlit(
            "signature + version compatibility verified; supply base64 'binary' to stage and atomically swap",
        );
    }
    let mut entries: Vec<(String, JsonValue)> = Vec::new();
    proof {
        crate::json::lemma_entry_models_of_len(entries@);
        assert(crate::json::entry_models_of(entries@) =~= Seq::empty());
    }
    push_entry(&mut entries, "status", JsonValue::from_str_slice("authorized"));
    push_entry(&mut entries, "applied", JsonValue::Bool(false));
    push_entry(&mut entries, "staged", JsonValue::Bool(false));
    push_entry(&mut entries, "version", JsonValue::Str(copy_string(&entry.version)));
    push_entry(&mut entries, "channel", JsonValue::from_str_slice(req.channel.as_str()));
    push_entry(&mut entries, "target", JsonValue::Str(copy_string(&req.target_triple)));
    push_entry(&mut entries, "install_path", JsonValue::Str(copy_string(&req.install_path)));
    push_entry(&mut entries, "release_notes_url", JsonValue::Str(copy_string(&entry.release_notes_url)));
    push_entry(&mut entries, "expected_binary_hash", JsonValue::from_str_slice(expected_hash));
    push_entry(&mut entries, "breaking_changes", JsonValue::Bool(entry.breaking_changes));
    push_entry(
        &mut entries,
        "note",
        JsonValue::from_str_slice(
            "signature + version compatibility verified; supply base64 'binary' to stage and atomically swap",
        ),
    );
    assert(crate::json::entry_models_of(entries@) =~= seq![
        ("status"@, JsonModel::Str("authorized"@)),
        ("applied"@, JsonModel::Bool(false)),
        ("staged"@, JsonModel::Bool(false)),
        ("version"@, JsonModel::Str(entry.version@)),
        ("channel"@, JsonModel::Str(channel_name(req.channel))),
        ("target"@, JsonModel::Str(req.target_triple@)),
        ("install_path"@, JsonModel::Str(req.install_path@)),
        ("release_notes_url"@, JsonModel::Str(entry.release_notes_url@)),
        ("expected_binary_hash"@, JsonModel::Str(expected_hash@)),
        ("breaking_changes"@, JsonModel::Bool(entry.breaking_changes)),
        ("note"@, JsonModel::Str(
            "signature + version compatibility verified; supply base64 'binary' to stage and atomically swap"@,
        )),
    ]);
    JsonValue::Object(entries)
}

/// The reply to an update whose binary was swapped in.
pub open spec fn applied_spec(
    version: Seq<char>,
    channel: ReleaseChannel,
    triple: Seq<char>,
    installed_to: Seq<char>,
    restart_scheduled: bool,
    notes: Seq<char>,
    hash: Seq<char>,
    breaking: bool,
) -> JsonModel {
    JsonModel::Object(
        seq![
            ("status"@, JsonModel::Str("applied"@)),
            ("applied"@, JsonModel::Bool(true)),
            ("version"@, JsonModel::Str(version)),
            ("channel"@, JsonModel::Str(channel_name(channel))),
            ("target"@, JsonModel::Str(triple)),
            ("installed_to"@, JsonModel::Str(installed_to)),
            ("restart_scheduled"@, JsonModel::Bool(restart_scheduled)),
            ("release_notes_url"@, JsonModel::Str(notes)),
            ("expected_binary_hash"@, JsonModel::Str(hash)),
            ("breaking_changes"@, JsonModel::Bool(breaking)),
        ],
    )
}

/// Build the reply to an applied update.
pub fn applied_reply(
    req: &UpdateRequest,
    entry: &ReleaseEntry,
    expected_hash: &str,
    installed_to: &str,
    restart_scheduled: bool,
) -> (r: JsonValue)
    ensures
        r@ == applied_spec(
            entry.version@,
            req.channel,
            req.target_triple@,
            installed_to@,
            restart_scheduled,
            entry.release_notes_url@,
            expected_hash@,
            entry.breaking_changes,
        ),
{
    proof {
        reveal_strlit("applied");
    }
    let mut entries: Vec<(String, JsonValue)> = Vec::new();
    proof {
        crate::json::lemma_entry_models_of_len(entries@);
        assert(crate::json::entry_models_of(entries@) =~= Seq::empty());
    }
    push_entry(&mut entries, "status", JsonValue::from_str_slice("applied"));
    push_entry(&mut entries, "applied", JsonValue::Bool(true));
    push_entry(&mut entries, "version", JsonValue::Str(copy_string(&entry.version)));
    push_entry(&mut entries, "channel", JsonValue::from_str_slice(req.channel.as_str()));
    push_entry(&mut entries, "target", JsonValue::Str(copy_string(&req.target_triple)));
    push_entry(&mut entries, "installed_to", JsonValue::from_str_slice(installed_to));
    push_entry(&mut entries, "restart_scheduled", JsonValue::Bool(restart_scheduled));
    push_entry(&mut entries, "release_notes_url", JsonValue::Str(copy_string(&entry.release_notes_url)));
    push_entry(&mut entries, "expected_binary_hash", JsonValue::from_str_slice(expected_hash));
    push_entry(&mut entries, "breaking_changes", JsonValue::Bool(entry.breaking_changes));
    assert(crate::json::entry_models_of(entries@) =~= seq![
        ("status"@, JsonModel::Str("applied"@)),
        ("applied"@, JsonModel::Bool(true)),
        ("version"@, JsonModel::Str(entry.version@)),
        ("channel"@, JsonModel::Str(channel_name(req.channel))),
        ("target"@, JsonModel::Str(req.target_triple@)),
        ("installed_to"@, JsonModel::Str(installed_to@)),
        ("restart_scheduled"@, JsonModel::Bool(restart_scheduled)),
        ("release_notes_url"@, JsonModel::Str(entry.release_notes_url@)),
        ("expected_binary_hash"@, JsonModel::Str(expected_hash@)),
        ("breaking_changes"@, JsonModel::Bool(entry.breaking_changes)),
    ]);
    JsonValue::Object(entries)
}

/// The error code and message a refused admission is reported with.
pub open spec fn gate_error_rpc(g: GateError) -> (i64, Seq<char>) {
    match g {
        GateError::SignatureInvalid => (
            INVALID_PARAMS,
            "release signature failed FALCON-1024 verification; refusing to apply"@,
        ),
        GateError::NoFoundationKey => (
            INTERNAL_ERROR,
            "no foundation public key configured; cannot verify release"@,
        ),
        GateError::VersionIncompatible(release, daemon) => (
            PROTOCOL_VERSION_MISMATCH,
            "release "@ + release + " is protocol-incompatible with daemon "@ + daemon
                + " (major version differs); refusing to apply"@,
        ),
        GateError::MinVersionUnmet(required, running) => (
            INVALID_PARAMS,
            "release requires_min_version "@ + required + " is newer than running "@ + running
                + "; upgrade to the required compatibility step first"@,
        ),
    }
}

/// Whether entry `i` is the first cached release on `channel` with
/// `version`.
pub open spec fn is_first_release(
    entries: Seq<ReleaseEntry>,
    i: int,
    version: Seq<char>,
    channel: ReleaseChannel,
) -> bool {
    &&& 0 <= i < entries.len()
    &&& entries[i].channel == channel && entries[i].version@ == version
    &&& forall|j: int|
        0 <= j < i ==> !((#[trigger] entries[j]).channel == channel && entries[j].version@ == version)
}

/// Whether some cached release is on `channel` with `version`.
pub open spec fn has_release(entries: Seq<ReleaseEntry>, version: Seq<char>, channel: ReleaseChannel) -> bool {
    exists|j: int|
        0 <= j < entries.len() && (#[trigger] entries[j]).channel == channel && entries[j].version@
            == version
}

/// The minimum running version a release names, as text.
pub open spec fn min_version_view(e: ReleaseEntry) -> Option<Seq<char>> {
    match e.requires_min_version {
        Some(m) => Some(m@),
        None => None,
    }
}

/// What an update that reached its release ends in.
#[derive(Debug)]
pub enum UpdatePlan {
    /// The release is admitted but no binary came with the call: answer
    /// with this reply (nothing is staged).
    Authorized(JsonValue),
    /// The release is admitted and the binary matches its signed hash:
    /// stage `candidate` and swap it in at `install_path`, then answer with
    /// `applied_reply` for entry `entry_index`.
    Swap { entry_index: usize, candidate: Vec<u8>, expected_hash: String, install_path: String },
}

/// How `system.apply_update` ends once its release `e` (entry `i`) is
/// found, for target `t`, install path `p`, channel `c`, optional base64
/// binary `b` and admission facts `f`: see `decide_apply_update`.
pub open spec fn release_outcome(
    r: Result<(UpdateRequest, UpdatePlan), RpcError>,
    e: ReleaseEntry,
    i: int,
    f: GateFacts,
    c: ReleaseChannel,
    t: Seq<char>,
    p: Seq<char>,
    b: Option<Seq<char>>,
) -> bool {
    match gate_spec(e.version@, min_version_view(e), f, ipc_protocol_version()) {
        Err(g) => r matches Err(err) && is_error(err, gate_error_rpc(g).0, gate_error_rpc(g).1),
        Ok(()) => if !tmap(e.binary_hashes@).contains_key(t) {
            r matches Err(err) && is_error(err, INVALID_PARAMS, no_hash_message(e.version@, t))
        } else {
            let h = tmap(e.binary_hashes@)[t]@;
            match b {
                None => r matches Ok((_, UpdatePlan::Authorized(j))) && j@ == authorized_spec(
                    e.version@,
                    c,
                    t,
                    p,
                    e.release_notes_url@,
                    h,
                    e.breaking_changes,
                ),
                Some(b64) => match base64_standard_decode(b64) {
                    Err(m) => r matches Err(err) && is_error(
                        err,
                        INVALID_PARAMS,
                        "'binary' is not valid base64: "@ + m,
                    ),
                    Ok(bytes) => {
                        let actual = hex_text(sha256_digest(bytes));
                        if ascii_lower(actual) == ascii_lower(h) {
                            r matches Ok((_, UpdatePlan::Swap { entry_index, candidate, expected_hash, install_path }))
                                && entry_index == i && candidate@ == bytes && expected_hash@ == h
                                && install_path@ == p
                        } else {
                            r matches Err(err) && is_error(
                                err,
                                INVALID_PARAMS,
                                "staged binary hash "@ + actual + " does not match signed hash "@ + h
                                    + "; refusing to swap"@,
                            )
                        }
                    },
                },
            }
        },
    }
}

/// Decide a `system.apply_update` call: read its parameters, find its
/// release among the cached `entries` (when a feed is configured), gate it
/// with the caller's `facts` for that entry against the running protocol
/// version, find the signed hash for its target, and, when a binary came
/// with the call, decode it and check it against that hash. Every refusal
/// comes as an error, so an update whose signature or protocol version
/// fails never reaches staging or an `applied` answer.
pub fn decide_apply_update(
    params: &JsonValue,
    feed_configured: bool,
    entries: &Vec<ReleaseEntry>,
    facts: &Vec<GateFacts>,
) -> (r: Result<(UpdateRequest, UpdatePlan), RpcError>)
    requires
        facts@.len() == entries@.len(),
        forall|i: int| 0 <= i < entries@.len() ==> unique_keys((#[trigger] entries@[i]).binary_hashes@),
    ensures
        match update_request_spec(params@) {
            Err(m) => r matches Err(e) && is_error(e, INVALID_PARAMS, m),
            Ok((v, c, t, p, b)) => {
                &&& r matches Ok((req, _)) ==> req.target_version@ == v && req.channel == c
                    && req.target_triple@ == t && req.install_path@ == p
                &&& !feed_configured ==> (r matches Err(e) && is_error(
                    e,
                    INTERNAL_ERROR,
                    feed_not_configured_message(),
                ))
                &&& feed_configured && !has_release(entries@, v, c) ==> (r matches Err(e) && is_error(
                    e,
                    INVALID_PARAMS,
                    no_entry_message(v, c),
                ))
                &&& forall|i: int|
                    feed_configured && #[trigger] is_first_release(entries@, i, v, c)
                        ==> release_outcome(r, entries@[i], i, facts@[i], c, t, p, b)
            },
        },
{
    let req = match parse_update_request(params) {
        Ok(q) => q,
        Err(e) => {
            return Err(e);
        },
    };
    let idx = match select_release(&req, feed_configured, entries) {
        Ok(i) => i,
        Err(e) => {
            return Err(e);
        },
    };
    let entry = &entries[idx];
    proof {
        assert(is_first_release(entries@, idx as int, req.target_version@, req.channel));
        assert forall|k: int|
            #[trigger] is_first_release(entries@, k, req.target_version@, req.channel) implies k
            == idx by {
            if k < idx {
                assert(!((entries@[k]).channel == req.channel && entries@[k].version@
                    == req.target_version@));
            }
            if k > idx {
                assert(!((entries@[idx as int]).channel == req.channel && entries@[idx as int].version@
                    == req.target_version@));
            }
        }
    }
    let running = ipc_protocol_version_string();
    let min_text: Option<&str> = match &entry.requires_min_version {
        Some(m) => Some(m.as_str()),
        None => None,
    };
    match verify_and_gate(entry.version.as_str(), min_text, facts[idx], running.as_str()) {
        Ok(()) => {},
        Err(e) => {
            proof {
                reveal_strlit("release signature failed FALCON-1024 verification; refusing to apply");
                reveal_strlit("no foundation public key configured; cannot verify release");
            }
            return Err(apply_error_to_rpc(e));
        },
    }
    let expected = match expected_binary_hash(&req, entry) {
        Ok(h) => h,
        Err(e) => {
            return Err(e);
        },
    };
    let plan = match &req.binary_b64 {
        None => UpdatePlan::Authorized(authorized_reply(&req, entry, expected.as_str())),
        Some(b64) => {
            let candidate = match decode_candidate(b64.as_str()) {
                Ok(c) => c,
                Err(e) => {
                    return Err(e);
                },
            };
            match check_binary_hash(candidate.as_slice(), expected.as_str()) {
                Ok(()) => {},
                Err(e) => {
                    return Err(apply_error_to_rpc(e));
                },
            }
            UpdatePlan::Swap {
                entry_index: idx,
                candidate,
                expected_hash: expected,
                install_path: copy_string(&req.install_path),
            }
        },
    };
    Ok((req, plan))
}

/// An unverified release is never admitted: whatever the signature
/// outcome, without a foundation key admission is refused with
/// `NoFoundationKey`, and a release whose signature does not verify is
/// refused with `SignatureInvalid`.
pub proof fn law_unverified_release_refused(
    version: Seq<char>,
    min: Option<Seq<char>>,
    facts: GateFacts,
    running: Seq<char>,
)
    requires
        !facts.foundation_key_present || !facts.signature_valid,
    ensures
        gate_spec(version, min, facts, running) is Err,
        !facts.foundation_key_present ==> gate_spec(version, min, facts, running) == Err::<
            (),
            GateError,
        >(GateError::NoFoundationKey),
        facts.foundation_key_present ==> gate_spec(version, min, facts, running) == Err::<
            (),
            GateError,
        >(GateError::SignatureInvalid),
{
}

/// A release of another protocol major is refused even when its signature
/// verifies.
pub proof fn law_other_major_refused(
    version: Seq<char>,
    min: Option<Seq<char>>,
    facts: GateFacts,
    running: Seq<char>,
)
    requires
        facts.foundation_key_present,
        facts.signature_valid,
        major_or_zero(version) != major_or_zero(running),
    ensures
        gate_spec(version, min, facts, running) == Err::<(), GateError>(
            GateError::VersionIncompatible(version, running),
        ),
{
}

} // verus!
