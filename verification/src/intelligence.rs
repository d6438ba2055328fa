//! Intelligence-layer settings and records, and the inert trust client used
//! until a real one is wired in.
//!
//! Durations are whole seconds; timestamps are seconds since the epoch.

use vstd::prelude::*;
use crate::integration::PrivacyTier;

verus! {

/// A processed asset.
#[derive(Debug)]
pub struct AssetHandle {
    pub asset_id: String,
    pub content_address: Vec<u8>,
    pub privacy_tier: PrivacyTier,
    pub networks: Vec<String>,
    pub processed_at_secs: u64,
    pub deduplicated: bool,
    pub space_saved: u64,
}

/// Settings of the intelligence layer.
#[derive(Clone, Copy, Debug)]
pub struct IntelligenceLayerConfig {
    pub enable_monitoring: bool,
    pub max_concurrent_processing: usize,
    pub processing_timeout_secs: u64,
    pub retrieval_timeout_secs: u64,
    pub enable_cross_network_validation: bool,
    pub default_compression_level: u32,
    pub enable_quantum_encryption: bool,
    pub sharding_config: (usize, usize),
}

impl Default for IntelligenceLayerConfig {
    /// Monitoring on, 100 concurrent jobs, 30 s processing and 10 s
    /// retrieval timeouts, cross-network validation on, compression level
    /// 4, quantum-resistant encryption on, 10 data and 4 parity shards.
    fn default() -> (r: Self)
        ensures
            r.enable_monitoring,
            r.max_concurrent_processing == 100,
            r.processing_timeout_secs == 30,
            r.retrieval_timeout_secs == 10,
            r.enable_cross_network_validation,
            r.default_compression_level == 4,
            r.enable_quantum_encryption,
            r.sharding_config == (10usize, 4usize),
    {
        IntelligenceLayerConfig {
            enable_monitoring: true,
            max_concurrent_processing: 100,
            processing_timeout_secs: 30,
            retrieval_timeout_secs: 10,
            enable_cross_network_validation: true,
            default_compression_level: 4,
            enable_quantum_encryption: true,
            sharding_config: (10, 4),
        }
    }
}

/// A session token of a set of network credentials.
#[derive(Debug)]
pub struct SessionToken {
    pub token: Vec<u8>,
    pub issued_at_secs: u64,
    pub expires_at_secs: u64,
}

/// Credentials for one network.
#[derive(Debug)]
pub struct NetworkCredentials {
    pub certificate: Vec<u8>,
    pub public_key: Vec<u8>,
    pub private_key_encrypted: Vec<u8>,
    pub session_tokens: Vec<SessionToken>,
    pub expires_at_secs: u64,
}

/// Seconds a set of credentials stays valid.
pub const CREDENTIALS_LIFETIME_SECS: u64 = 86400;

/// Trust client that grants everything and holds no keys.
pub struct StubTrustChainClient;

impl StubTrustChainClient {
    pub fn new() -> (r: StubTrustChainClient) {
        StubTrustChainClient
    }

    /// Empty credentials that expire a day after `now_secs`.
    pub fn request_credentials(&self, network_id: &str, now_secs: u64) -> (r: NetworkCredentials)
        requires
            now_secs + CREDENTIALS_LIFETIME_SECS <= u64::MAX,
        ensures
            r.certificate@.len() == 0,
            r.public_key@.len() == 0,
            r.private_key_encrypted@.len() == 0,
            r.session_tokens@.len() == 0,
            r.expires_at_secs == now_secs + CREDENTIALS_LIFETIME_SECS,
    {
        NetworkCredentials {
            certificate: Vec::new(),
            public_key: Vec::new(),
            private_key_encrypted: Vec::new(),
            session_tokens: Vec::new(),
            expires_at_secs: now_secs + CREDENTIALS_LIFETIME_SECS,
        }
    }

    /// Revocation always succeeds.
    pub fn revoke_credentials(&self, network_id: &str) -> (r: Result<(), String>)
        ensures
            r is Ok,
    {
        Ok(())
    }

    /// Every certificate is accepted.
    pub fn validate_certificate(&self, cert: &[u8]) -> (r: bool)
        ensures
            r,
    {
        true
    }

    /// No networks are known.
    pub fn discover_networks(&self) -> (r: Vec<String>)
        ensures
            r@.len() == 0,
    {
        Vec::new()
    }
}

} // verus!
