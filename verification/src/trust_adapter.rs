//! The trust-signal adapter between the peer analytics and the certificate
//! authority: the latest trust band of each peer, keyed by its certificate
//! fingerprint, and the band the authority is given for it.

use vstd::prelude::*;
use crate::codecs::{hex_encode, hex_text};
use crate::table::{lemma_tmap_index, table_find, table_push, table_remove_at, table_set_at, tmap, unique_keys};

verus! {

/// How the analytics rate a peer.
#[derive(PartialEq, Eq, Structural, Clone, Copy, Debug)]
pub enum SignalBand {
    Full,
    Conditional,
    Untrusted,
}

/// How the certificate authority treats a peer.
#[derive(PartialEq, Eq, Structural, Clone, Copy, Debug)]
pub enum PeerTrustBand {
    Full,
    Conditional,
}

/// The authority's band for an analytics band: an untrusted peer is held
/// to conditional trust, never refused outright.
pub open spec fn authority_band(b: SignalBand) -> PeerTrustBand {
    match b {
        SignalBand::Full => PeerTrustBand::Full,
        SignalBand::Conditional => PeerTrustBand::Conditional,
        SignalBand::Untrusted => PeerTrustBand::Conditional,
    }
}

/// The latest band of each peer, by certificate fingerprint.
#[derive(Debug)]
pub struct TrustAdapter {
    entries: Vec<(String, SignalBand)>,
}

impl TrustAdapter {
    /// The bands, keyed by the fingerprint in hex.
    pub closed spec fn bands(&self) -> Map<Seq<char>, SignalBand> {
        tmap(self.entries@)
    }

    /// No fingerprint is held twice.
    pub closed spec fn well_formed(&self) -> bool {
        unique_keys(self.entries@)
    }

    /// An adapter with no signals.
    pub fn new() -> (r: TrustAdapter)
        ensures
            r.well_formed(),
            r.bands() == Map::<Seq<char>, SignalBand>::empty(),
    {
        TrustAdapter { entries: Vec::new() }
    }

    /// Record the latest band of `peer`, replacing an earlier one.
    pub fn upsert(&mut self, peer: &[u8], band: SignalBand)
        requires
            old(self).well_formed(),
        ensures
            final(self).well_formed(),
            final(self).bands() == old(self).bands().insert(hex_text(peer@), band),
    {
        let key = hex_encode(peer);
        match table_find(&self.entries, key.as_str()) {
            Some(i) => table_set_at(&mut self.entries, i, band),
            None => table_push(&mut self.entries, key.as_str(), band),
        }
    }

    /// Drop what is known of `peer`.
    pub fn forget(&mut self, peer: &[u8])
        requires
            old(self).well_formed(),
        ensures
            final(self).well_formed(),
            final(self).bands() == old(self).bands().remove(hex_text(peer@)),
    {
        let key = hex_encode(peer);
        match table_find(&self.entries, key.as_str()) {
            Some(i) => {
                table_remove_at(&mut self.entries, i);
            },
            None => {
                assert(self.bands().remove(key@) =~= self.bands());
            },
        }
    }

    /// The band the authority is given for `peer`: none for a peer without
    /// signals.
    pub fn trust_band_for(&self, peer: &[u8]) -> (r: Option<PeerTrustBand>)
        requires
            self.well_formed(),
        ensures
            match self.bands().get(hex_text(peer@)) {
                Some(b) => r == Some(authority_band(b)),
                None => r is None,
            },
    {
        let key = hex_encode(peer);
        match table_find(&self.entries, key.as_str()) {
            Some(i) => {
                proof {
                    lemma_tmap_index(self.entries@, i as int);
                }
                let b = self.entries[i].1;
                Some(
                    match b {
                        SignalBand::Full => PeerTrustBand::Full,
                        SignalBand::Conditional => PeerTrustBand::Conditional,
                        SignalBand::Untrusted => PeerTrustBand::Conditional,
                    },
                )
            },
            None => None,
        }
    }
}

/// The authority never sees an untrusted peer refused: every band it is
/// given is full or conditional, and only a fully trusted peer is full.
pub proof fn law_untrusted_is_conditional(b: SignalBand)
    ensures
        authority_band(b) == PeerTrustBand::Full <==> b == SignalBand::Full,
{
}

/// What is recorded for a peer is what is read back for it: after
/// `upsert(peer, b)` the peer's band is `b` (so the authority gets
/// `authority_band(b)`), other peers keep theirs, and after `forget(peer)`
/// nothing is known of it.
pub proof fn law_upsert_then_read(
    before: Map<Seq<char>, SignalBand>,
    peer: Seq<u8>,
    b: SignalBand,
    other: Seq<char>,
)
    ensures
        before.insert(hex_text(peer), b).get(hex_text(peer)) == Some(b),
        other != hex_text(peer) ==> before.insert(hex_text(peer), b).get(other) == before.get(other),
        before.insert(hex_text(peer), b).remove(hex_text(peer)).get(hex_text(peer)) is None,
{
}

} // verus!
