//! `trustchain.request_cert`: the checks on the call and the reply of a
//! signed request. Choosing the signer and signing are the caller's.

use vstd::prelude::*;
use crate::codecs::{base64_decode, base64_encode, base64_standard_decode, base64_standard_encode};
use crate::json::{JsonModel, JsonValue, json_get_str, entry_models_of, lemma_entry_models_of_len, push_entry};
use crate::protocol::{RpcError, INTERNAL_ERROR, INVALID_PARAMS, is_error};
use crate::text::concat2;

verus! {

/// A checked certificate request.
#[derive(Debug)]
pub struct CertRequest {
    pub csr: Vec<u8>,
    /// Scope of the certificate; `local` when none is given.
    pub scope: String,
}

/// The checks on a certificate request: a base64 `csr` is required.
pub open spec fn cert_request_spec(params: JsonModel) -> Result<(Seq<u8>, Seq<char>), Seq<char>> {
    match json_get_str(params, "csr"@) {
        None => Err("missing 'csr' parameter (base64-encoded)"@),
        Some(b64) => match base64_standard_decode(b64) {
            Err(m) => Err("csr base64 decode failed: "@ + m),
            Ok(bytes) => Ok(
                (
                    bytes,
                    match json_get_str(params, "scope"@) {
                        Some(s) => s,
                        None => "local"@,
                    },
                ),
            ),
        },
    }
}

/// Check a certificate request (see `cert_request_spec`); refusals are
/// `INVALID_PARAMS` errors.
pub fn cert_request_params(params: &JsonValue) -> (r: Result<CertRequest, RpcError>)
    ensures
        match cert_request_spec(params@) {
            Ok((csr, scope)) => r matches Ok(c) && c.csr@ == csr && c.scope@ == scope,
            Err(m) => r matches Err(e) && is_error(e, INVALID_PARAMS, m),
        },
{
    proof {
        reveal_strlit("missing 'csr' parameter (base64-encoded)");
        reveal_strlit("csr base64 decode failed: ");
        reveal_strlit("local");
    }
    let b64 = match params.get_str("csr") {
        Some(b) => b,
        None => {
            return Err(
                RpcError::new(
                    INVALID_PARAMS,
                    String::from_str("missing 'csr' parameter (base64-encoded)"),
                ),
            );
        },
    };
    let csr = match base64_decode(b64) {
        Ok(v) => v,
        Err(m) => {
            return Err(RpcError::new(INVALID_PARAMS, concat2("csr base64 decode failed: ", m.as_str())));
        },
    };
    let scope = match params.get_str("scope") {
        Some(s) => s,
        None => "local",
    };
    Ok(CertRequest { csr, scope: String::from_str(scope) })
}

/// Which signer signed a request.
#[derive(PartialEq, Eq, Structural, Clone, Copy, Debug)]
pub enum SigningPath {
    /// The node's own identity key.
    Local,
    /// The federation's threshold signers.
    Threshold,
}

/// Name of a signing path.
pub open spec fn signing_path_name(p: SigningPath) -> Seq<char> {
    match p {
        SigningPath::Local => "local"@,
        SigningPath::Threshold => "threshold"@,
    }
}

/// The reply to a signed request.
pub open spec fn cert_signed_spec(
    node_id: Seq<char>,
    scope: Seq<char>,
    path: SigningPath,
    signature: Seq<u8>,
    csr_len: u64,
) -> JsonModel {
    JsonModel::Object(
        seq![
            ("node_id"@, JsonModel::Str(node_id)),
            ("scope"@, JsonModel::Str(scope)),
            ("path"@, JsonModel::Str(signing_path_name(path))),
            ("signature"@, JsonModel::Str(base64_standard_encode(signature))),
            ("csr_len"@, JsonModel::UInt(csr_len)),
            ("status"@, JsonModel::Str("signed"@)),
        ],
    )
}

/// Build the reply to a signed request.
pub fn cert_signed_reply(
    node_id: &str,
    req: &CertRequest,
    path: SigningPath,
    signature: &[u8],
) -> (r: JsonValue)
    ensures
        r@ == cert_signed_spec(node_id@, req.scope@, path, signature@, req.csr@.len() as u64),
{
    proof {
        reveal_strlit("local");
        reveal_strlit("threshold");
        reveal_strlit("signed");
    }
    let mut entries: Vec<(String, JsonValue)> = Vec::new();
    proof {
        lemma_entry_models_of_len(entries@);
        assert(entry_models_of(entries@) =~= Seq::empty());
    }
    let path_name = match path {
        SigningPath::Local => "local",
        SigningPath::Threshold => "threshold",
    };
    push_entry(&mut entries, "node_id", JsonValue::from_str_slice(node_id));
    push_entry(&mut entries, "scope", JsonValue::Str(crate::text::copy_string(&req.scope)));
    push_entry(&mut entries, "path", JsonValue::from_str_slice(path_name));
    push_entry(&mut entries, "signature", JsonValue::Str(base64_encode(signature)));
    push_entry(&mut entries, "csr_len", JsonValue::UInt(req.csr.len() as u64));
    push_entry(&mut entries, "status", JsonValue::from_str_slice("signed"));
    assert(entry_models_of(entries@) =~= seq![
        ("node_id"@, JsonModel::Str(node_id@)),
        ("scope"@, JsonModel::Str(req.scope@)),
        ("path"@, JsonModel::Str(signing_path_name(path))),
        ("signature"@, JsonModel::Str(base64_standard_encode(signature@))),
        ("csr_len"@, JsonModel::UInt(req.csr@.len() as u64)),
        ("status"@, JsonModel::Str("signed"@)),
    ]);
    JsonValue::Object(entries)
}

/// Internal error with a detail, for the signing steps.
pub fn signing_error(what: &str, detail: &str) -> (r: RpcError)
    ensures
        is_error(r, INTERNAL_ERROR, what@ + ": "@ + detail@),
{
    proof {
        reveal_strlit(": ");
    }
    RpcError::new(INTERNAL_ERROR, crate::text::concat3(what, ": ", detail))
}

} // verus!
