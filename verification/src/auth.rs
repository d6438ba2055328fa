//! Session requests: `auth.create_session`, `auth.list_sessions` and
//! `auth.revoke_session`, with the record of issued sessions.

use vstd::prelude::*;
use vstd::utf8::encode_utf8;
use crate::capability::{Capability, parse_capabilities, parse_capabilities_spec};
use crate::codecs::{hex_decodable, hex_decode, hex_decoded, hex_encode, hex_error_text, hex_text};
use crate::json::{
    JsonModel, JsonValue, json_get, json_get_str, json_get_u64, models_of, new_entries, push_entry,
};
use crate::protocol::{RpcError, INTERNAL_ERROR, INVALID_PARAMS, is_error};
use crate::text::{concat2, str_eq};

verus! {

/// Error for a session request on a daemon that issues no tokens.
pub fn auth_not_configured() -> (r: RpcError)
    ensures
        is_error(r, INTERNAL_ERROR, "auth not configured (alpha-default inert)"@),
{
    proof {
        reveal_strlit("auth not configured (alpha-default inert)");
    }
    RpcError::new(INTERNAL_ERROR, String::from_str("auth not configured (alpha-default inert)"))
}

/// A checked `auth.create_session` call.
#[derive(Debug)]
pub struct CreateSessionRequest {
    pub device_pubkey: Vec<u8>,
    pub capabilities: Vec<Capability>,
    /// One hour unless given.
    pub ttl_secs: u64,
}

/// Outcome of the checks on `auth.create_session`, given whether the
/// daemon issues tokens: the error code and message, or the device key,
/// the capabilities and the lifetime.
pub open spec fn create_session_spec(params: JsonModel, configured: bool) -> Result<
    (Seq<u8>, Seq<Capability>, u64),
    (i64, Seq<char>),
> {
    if !configured {
        Err((INTERNAL_ERROR, "auth not configured (alpha-default inert)"@))
    } else {
        match json_get_str(params, "device_pubkey"@) {
            None => Err((INVALID_PARAMS, "missing 'device_pubkey' parameter (hex)"@)),
            Some(h) => if !hex_decodable(encode_utf8(h)) {
                Err((INVALID_PARAMS, "device_pubkey hex decode failed: "@ + hex_error_text(h)))
            } else {
                match json_get(params, "requested_capabilities"@) {
                    None => Err((INVALID_PARAMS, "missing 'requested_capabilities' parameter"@)),
                    Some(raw) => match parse_capabilities_spec(raw) {
                        Err(msg) => Err((INVALID_PARAMS, msg)),
                        Ok(caps) => Ok(
                            (
                                hex_decoded(encode_utf8(h)),
                                caps,
                                match json_get_u64(params, "ttl_secs"@) {
                                    Some(t) => t,
                                    None => 3600,
                                },
                            ),
                        ),
                    },
                }
            },
        }
    }
}

/// Check an `auth.create_session` call (see `create_session_spec`).
pub fn create_session_request(params: &JsonValue, configured: bool) -> (r: Result<
    CreateSessionRequest,
    RpcError,
>)
    ensures
        match create_session_spec(params@, configured) {
            Ok((key, caps, ttl)) => r matches Ok(q) && q.device_pubkey@ == key && q.capabilities@
                == caps && q.ttl_secs == ttl,
            Err((code, msg)) => r matches Err(e) && is_error(e, code, msg),
        },
{
    proof {
        reveal_strlit("missing 'device_pubkey' parameter (hex)");
        reveal_strlit("device_pubkey hex decode failed: ");
        reveal_strlit("missing 'requested_capabilities' parameter");
    }
    if !configured {
        return Err(auth_not_configured());
    }
    let h = match params.get_str("device_pubkey") {
        Some(h) => h,
        None => {
            return Err(
                RpcError::new(
                    INVALID_PARAMS,
                    String::from_str("missing 'device_pubkey' parameter (hex)"),
                ),
            );
        },
    };
    let device_pubkey = match hex_decode(h) {
        Ok(b) => b,
        Err(e) => {
            return Err(
                RpcError::new(INVALID_PARAMS, concat2("device_pubkey hex decode failed: ", e.as_str())),
            );
        },
    };
    let raw = match params.get("requested_capabilities") {
        Some(v) => v,
        None => {
            return Err(
                RpcError::new(
                    INVALID_PARAMS,
                    String::from_str("missing 'requested_capabilities' parameter"),
                ),
            );
        },
    };
    let capabilities = match parse_capabilities(raw) {
        Ok(c) => c,
        Err(e) => {
            return Err(e);
        },
    };
    let ttl_secs = match params.get_u64("ttl_secs") {
        Some(t) => t,
        None => 3600,
    };
    Ok(CreateSessionRequest { device_pubkey, capabilities, ttl_secs })
}

/// Error when the issuer refused to issue a token.
pub fn issue_failed(detail: &str) -> (r: RpcError)
    ensures
        is_error(r, INTERNAL_ERROR, "issue token failed: "@ + detail@),
{
    proof {
        reveal_strlit("issue token failed: ");
    }
    RpcError::new(INTERNAL_ERROR, concat2("issue token failed: ", detail))
}

/// An issued token, as the reply shows it.
#[derive(Debug)]
pub struct TokenView {
    pub session_id: String,
    pub device_pubkey: Vec<u8>,
    pub issued_at_secs: u64,
    pub valid_until_secs: u64,
    pub issued_by: Vec<u8>,
    pub signature: Vec<u8>,
}

/// Reply to `auth.create_session`: the token's fields, keys and signature
/// in hex, its capabilities and the whole token as `capabilities_json` and
/// `token_json` give them.
pub fn token_reply(t: &TokenView, capabilities_json: JsonValue, token_json: JsonValue) -> (r:
    JsonValue)
    ensures
        r@ == JsonModel::Object(
            seq![
                ("session_id"@, JsonModel::Str(t.session_id@)),
                ("device_pubkey_hex"@, JsonModel::Str(hex_text(t.device_pubkey@))),
                ("capabilities"@, capabilities_json@),
                ("issued_at_secs"@, JsonModel::UInt(t.issued_at_secs)),
                ("valid_until_secs"@, JsonModel::UInt(t.valid_until_secs)),
                ("issued_by_hex"@, JsonModel::Str(hex_text(t.issued_by@))),
                ("signature_hex"@, JsonModel::Str(hex_text(t.signature@))),
                ("token"@, token_json@),
            ],
        ),
{
    let ghost cj = capabilities_json@;
    let ghost tj = token_json@;
    let mut entries = new_entries();
    push_entry(&mut entries, "session_id", JsonValue::from_str_slice(t.session_id.as_str()));
    push_entry(
        &mut entries,
        "device_pubkey_hex",
        JsonValue::Str(hex_encode(t.device_pubkey.as_slice())),
    );
    push_entry(&mut entries, "capabilities", capabilities_json);
    push_entry(&mut entries, "issued_at_secs", JsonValue::UInt(t.issued_at_secs));
    push_entry(&mut entries, "valid_until_secs", JsonValue::UInt(t.valid_until_secs));
    push_entry(&mut entries, "issued_by_hex", JsonValue::Str(hex_encode(t.issued_by.as_slice())));
    push_entry(&mut entries, "signature_hex", JsonValue::Str(hex_encode(t.signature.as_slice())));
    push_entry(&mut entries, "token", token_json);
    assert(crate::json::entry_models_of(entries@) =~= seq![
        ("session_id"@, JsonModel::Str(t.session_id@)),
        ("device_pubkey_hex"@, JsonModel::Str(hex_text(t.device_pubkey@))),
        ("capabilities"@, cj),
        ("issued_at_secs"@, JsonModel::UInt(t.issued_at_secs)),
        ("valid_until_secs"@, JsonModel::UInt(t.valid_until_secs)),
        ("issued_by_hex"@, JsonModel::Str(hex_text(t.issued_by@))),
        ("signature_hex"@, JsonModel::Str(hex_text(t.signature@))),
        ("token"@, tj),
    ]);
    JsonValue::Object(entries)
}

/// A session the daemon issued.
#[derive(Debug)]
pub struct SessionRecord {
    pub session_id: String,
    pub device_pubkey_hex: String,
    pub capabilities: Vec<Capability>,
    pub issued_at_secs: u64,
    pub valid_until_secs: u64,
}

/// The sessions issued since the daemon started, oldest first.
#[derive(Debug)]
pub struct SessionRegistry {
    records: Vec<SessionRecord>,
}

/// What a session record holds: its id, the device key in hex, the
/// granted capabilities, and when it was issued and stops being valid.
pub struct SessionView {
    pub session_id: Seq<char>,
    pub device_pubkey_hex: Seq<char>,
    pub capabilities: Seq<Capability>,
    pub issued_at_secs: u64,
    pub valid_until_secs: u64,
}

/// The view of a session record, every field of it.
pub open spec fn record_key(r: SessionRecord) -> SessionView {
    SessionView {
        session_id: r.session_id@,
        device_pubkey_hex: r.device_pubkey_hex@,
        capabilities: r.capabilities@,
        issued_at_secs: r.issued_at_secs,
        valid_until_secs: r.valid_until_secs,
    }
}

/// The capabilities of the first record of `session_id`, or none.
pub open spec fn capabilities_of_spec(records: Seq<SessionView>, session_id: Seq<char>) -> Seq<
    Capability,
>
    decreases records.len(),
{
    if records.len() == 0 {
        Seq::empty()
    } else if records[0].session_id == session_id {
        records[0].capabilities
    } else {
        capabilities_of_spec(records.drop_first(), session_id)
    }
}

impl SessionRegistry {
    /// The issued sessions, every field of each, in order.
    pub closed spec fn sessions(&self) -> Seq<SessionView> {
        self.records@.map_values(|r: SessionRecord| record_key(r))
    }

    /// No session issued yet.
    pub fn new() -> (r: SessionRegistry)
        ensures
            r.sessions() == Seq::<SessionView>::empty(),
    {
        let r = SessionRegistry { records: Vec::new() };
        assert(r.sessions() =~= Seq::<SessionView>::empty());
        r
    }

    /// Remember an issued session after the earlier ones.
    pub fn record(&mut self, rec: SessionRecord)
        ensures
            final(self).sessions() == old(self).sessions().push(record_key(rec)),
    {
        let ghost k = record_key(rec);
        self.records.push(rec);
        assert(self.sessions() =~= old(self).sessions().push(k));
    }

    /// Number of issued sessions.
    pub fn count(&self) -> (r: usize)
        ensures
            r == self.sessions().len(),
    {
        self.records.len()
    }

    /// The issued sessions, oldest first.
    pub fn records(&self) -> (r: &Vec<SessionRecord>)
        ensures
            r@.map_values(|x: SessionRecord| record_key(x)) == self.sessions(),
    {
        &self.records
    }

    /// The capabilities granted to `session_id` (of its first record), or
    /// none when the session is unknown.
    pub fn capabilities_of(&self, session_id: &str) -> (r: Vec<Capability>)
        ensures
            r@ == capabilities_of_spec(self.sessions(), session_id@),
    {
        let ghost s = self.sessions();
        let mut i: usize = 0;
        proof {
            assert(s.skip(0) =~= s);
        }
        while i < self.records.len()
            invariant
                i <= self.records@.len(),
                s == self.sessions(),
                s.len() == self.records@.len(),
                capabilities_of_spec(s.skip(i as int), session_id@) == capabilities_of_spec(
                    s,
                    session_id@,
                ),
            decreases self.records@.len() - i,
        {
            assert(s.skip(i as int)[0] == record_key(self.records@[i as int]));
            assert(s.skip(i as int).drop_first() =~= s.skip(i + 1));
            if str_eq(self.records[i].session_id.as_str(), session_id) {
                let caps = copy_capabilities(&self.records[i].capabilities);
                return caps;
            }
            i = i + 1;
        }
        assert(s.skip(i as int) =~= Seq::<SessionView>::empty());
        Vec::new()
    }
}

fn copy_capabilities(v: &Vec<Capability>) -> (r: Vec<Capability>)
    ensures
        r@ == v@,
{
    let mut out: Vec<Capability> = Vec::new();
    let mut i: usize = 0;
    while i < v.len()
        invariant
            i <= v@.len(),
            out@ == v@.take(i as int),
        decreases v@.len() - i,
    {
        out.push(v[i]);
        i = i + 1;
        assert(out@ =~= v@.take(i as int));
    }
    assert(v@.take(v@.len() as int) =~= v@);
    out
}

/// Reply to `auth.list_sessions`: the sessions as `sessions_json` gives
/// them, and their number.
pub fn sessions_reply(sessions_json: Vec<JsonValue>) -> (r: JsonValue)
    ensures
        r@ == JsonModel::Object(
            seq![
                ("sessions"@, JsonModel::Array(models_of(sessions_json@))),
                ("count"@, JsonModel::UInt(sessions_json@.len() as u64)),
            ],
        ),
{
    let n = sessions_json.len();
    let ghost items = models_of(sessions_json@);
    let mut entries = new_entries();
    push_entry(&mut entries, "sessions", JsonValue::Array(sessions_json));
    push_entry(&mut entries, "count", JsonValue::UInt(n as u64));
    assert(crate::json::entry_models_of(entries@) =~= seq![
        ("sessions"@, JsonModel::Array(items)),
        ("count"@, JsonModel::UInt(n as u64)),
    ]);
    JsonValue::Object(entries)
}

/// Name for what `uuid::Uuid::parse_str` gives for `text`: the UUID in its
/// lower-case hyphenated form, or the error's `Display` text.
pub uninterp spec fn uuid_parsed(text: Seq<char>) -> Result<Seq<char>, Seq<char>>;

/// Trusted wrapper for `uuid::Uuid::parse_str`: the parsed UUID shown in
/// its hyphenated form, or the error's text; both by name.
#[verifier::external_body]
fn parse_uuid(text: &str) -> (r: Result<String, String>)
    ensures
        match uuid_parsed(text@) {
            Ok(s) => r matches Ok(v) && v@ == s,
            Err(m) => r matches Err(v) && v@ == m,
        },
{
    match uuid::Uuid::parse_str(text) {
        Ok(u) => Ok(u.to_string()),
        Err(e) => Err(e.to_string()),
    }
}

/// Outcome of the checks on `auth.revoke_session`, given whether the daemon
/// issues tokens: the error, or the session id in hyphenated form.
pub open spec fn revoke_spec(params: JsonModel, configured: bool) -> Result<Seq<char>, (i64, Seq<char>)> {
    if !configured {
        Err((INTERNAL_ERROR, "auth not configured (alpha-default inert)"@))
    } else {
        match json_get_str(params, "session_id"@) {
            None => Err((INVALID_PARAMS, "missing 'session_id' parameter"@)),
            Some(text) => match uuid_parsed(text) {
                Ok(id) => Ok(id),
                Err(m) => Err((INVALID_PARAMS, "invalid session_id UUID: "@ + m)),
            },
        }
    }
}

/// Check an `auth.revoke_session` call (see `revoke_spec`).
pub fn revoke_session_id(params: &JsonValue, configured: bool) -> (r: Result<String, RpcError>)
    ensures
        match revoke_spec(params@, configured) {
            Ok(id) => r matches Ok(s) && s@ == id,
            Err((code, msg)) => r matches Err(e) && is_error(e, code, msg),
        },
{
    proof {
        reveal_strlit("missing 'session_id' parameter");
        reveal_strlit("invalid session_id UUID: ");
    }
    if !configured {
        return Err(auth_not_configured());
    }
    let text = match params.get_str("session_id") {
        Some(t) => t,
        None => {
            return Err(RpcError::new(INVALID_PARAMS, String::from_str("missing 'session_id' parameter")));
        },
    };
    match parse_uuid(text) {
        Ok(id) => Ok(id),
        Err(m) => Err(RpcError::new(INVALID_PARAMS, concat2("invalid session_id UUID: ", m.as_str()))),
    }
}

/// Reply to `auth.revoke_session`.
pub fn revoked_reply(session_id: &str) -> (r: JsonValue)
    ensures
        r@ == JsonModel::Object(
            seq![("session_id"@, JsonModel::Str(session_id@)), ("revoked"@, JsonModel::Bool(true))],
        ),
{
    let mut entries = new_entries();
    push_entry(&mut entries, "session_id", JsonValue::from_str_slice(session_id));
    push_entry(&mut entries, "revoked", JsonValue::Bool(true));
    assert(crate::json::entry_models_of(entries@) =~= seq![
        ("session_id"@, JsonModel::Str(session_id@)),
        ("revoked"@, JsonModel::Bool(true)),
    ]);
    JsonValue::Object(entries)
}

/// A recorded session's capabilities are found again by its id, unless an
/// earlier record has the same id.
pub proof fn law_recorded_session_found(
    sessions: Seq<SessionView>,
    rec: SessionView,
)
    requires
        forall|i: int| 0 <= i < sessions.len() ==> (#[trigger] sessions[i]).session_id != rec.session_id,
    ensures
        capabilities_of_spec(sessions.push(rec), rec.session_id) == rec.capabilities,
    decreases sessions.len(),
{
    if sessions.len() > 0 {
        assert(sessions.push(rec).drop_first() =~= sessions.drop_first().push(rec));
        assert forall|i: int| 0 <= i < sessions.drop_first().len() implies (
        #[trigger] sessions.drop_first()[i]).session_id != rec.session_id by {
            assert(sessions.drop_first()[i] == sessions[i + 1]);
        }
        law_recorded_session_found(sessions.drop_first(), rec);
        assert(sessions.push(rec)[0] == sessions[0]);
    }
}

} // verus!
