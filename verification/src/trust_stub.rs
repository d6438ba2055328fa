//! Trust client handing out fixed all-zero credentials, for wiring the
//! intelligence layer before a real trust service is available.

use vstd::prelude::*;
use crate::intelligence::{NetworkCredentials, SessionToken};

verus! {

/// Seconds a session token stays valid.
pub const SESSION_LIFETIME_SECS: u64 = 3600;

/// Seconds a set of credentials stays valid.
pub const CREDENTIALS_LIFETIME_SECS: u64 = 86400;

/// Trust client with zeroed placeholder keys.
pub struct StubTrustChainClient;

fn zeros(n: usize) -> (r: Vec<u8>)
    ensures
        r@.len() == n,
        forall|i: int| 0 <= i < n ==> r@[i] == 0,
{
    let mut v: Vec<u8> = Vec::new();
    let mut i: usize = 0;
    while i < n
        invariant
            i <= n,
            v@.len() == i,
            forall|k: int| 0 <= k < i ==> v@[k] == 0,
        decreases n - i,
    {
        v.push(0);
        i = i + 1;
    }
    v
}

impl StubTrustChainClient {
    pub fn new() -> (r: StubTrustChainClient) {
        StubTrustChainClient
    }

    /// Credentials issued at `now_secs`: a 64-byte zero certificate, 32-byte
    /// zero keys, and one 32-byte zero session token valid for an hour; the
    /// credentials expire after a day.
    pub fn request_credentials(&self, network_id: &str, now_secs: u64) -> (r: NetworkCredentials)
        requires
            now_secs + CREDENTIALS_LIFETIME_SECS <= u64::MAX,
        ensures
            r.certificate@ == Seq::new(64, |i: int| 0u8),
            r.public_key@ == Seq::new(32, |i: int| 0u8),
            r.private_key_encrypted@ == Seq::new(32, |i: int| 0u8),
            r.session_tokens@.len() == 1,
            r.session_tokens@[0].token@ == Seq::new(32, |i: int| 0u8),
            r.session_tokens@[0].issued_at_secs == now_secs,
            r.session_tokens@[0].expires_at_secs == now_secs + SESSION_LIFETIME_SECS,
            r.expires_at_secs == now_secs + CREDENTIALS_LIFETIME_SECS,
    {
        let certificate = zeros(64);
        let public_key = zeros(32);
        let private_key_encrypted = zeros(32);
        let token = zeros(32);
        assert(certificate@ =~= Seq::new(64, |i: int| 0u8));
        assert(public_key@ =~= Seq::new(32, |i: int| 0u8));
        assert(private_key_encrypted@ =~= Seq::new(32, |i: int| 0u8));
        assert(token@ =~= Seq::new(32, |i: int| 0u8));
        let mut session_tokens: Vec<SessionToken> = Vec::new();
        session_tokens.push(
            SessionToken {
                token,
                issued_at_secs: now_secs,
                expires_at_secs: now_secs + SESSION_LIFETIME_SECS,
            },
        );
        NetworkCredentials {
            certificate,
            public_key,
            private_key_encrypted,
            session_tokens,
            expires_at_secs: now_secs + CREDENTIALS_LIFETIME_SECS,
        }
    }

    /// Revocation always succeeds.
    pub fn revoke_credentials(&self, network_id: &str) -> (r: Result<(), String>)
        ensures
            r is Ok,
    {
        Ok(())
    }

    /// Every certificate is accepted.
    pub fn validate_certificate(&self, cert: &[u8]) -> (r: bool)
        ensures
            r,
    {
        true
    }

    /// No networks are known.
    pub fn discover_networks(&self) -> (r: Vec<String>)
        ensures
            r@.len() == 0,
    {
        Vec::new()
    }
}

} // verus!
