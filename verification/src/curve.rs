//! The X25519 key-exchange primitive, reached through trusted wrappers.
//! Both curve operations are deterministic functions of their 32-byte
//! inputs, so their results are carried by uninterpreted names that the
//! rest of the library reasons over.

use vstd::prelude::*;

verus! {

/// The X25519 public key derived from 32 secret bytes.
pub uninterp spec fn public_of(secret: Seq<u8>) -> Seq<u8>;

/// The X25519 shared secret of 32 local secret bytes and 32 peer public
/// key bytes.
pub uninterp spec fn shared_of(secret: Seq<u8>, peer_public: Seq<u8>) -> Seq<u8>;

/// Relies on x25519_dalek: `PublicKey::from(&StaticSecret)` multiplies the
/// curve base point by the clamped secret scalar, a deterministic function
/// of the 32 secret bytes alone.
#[verifier::external_body]
fn x25519_public(secret: &[u8; 32]) -> (r: [u8; 32])
    ensures
        r@ == public_of(secret@),
{
    let s = x25519_dalek::StaticSecret::from(*secret);
    x25519_dalek::PublicKey::from(&s).to_bytes()
}

/// Relies on x25519_dalek: `StaticSecret::diffie_hellman` multiplies the
/// peer's curve point by the clamped secret scalar, a deterministic
/// function of the two 32-byte inputs alone.
#[verifier::external_body]
fn x25519_shared(secret: &[u8; 32], peer_public: &[u8; 32]) -> (r: [u8; 32])
    ensures
        r@ == shared_of(secret@, peer_public@),
{
    let s = x25519_dalek::StaticSecret::from(*secret);
    let p = x25519_dalek::PublicKey::from(*peer_public);
    s.diffie_hellman(&p).to_bytes()
}

/// A secret scalar together with the public key derived from it. Both keys
/// are created fresh for a single diagnostic run and never persisted.
#[derive(Clone, Copy)]
pub struct KeyPair {
    pub secret: [u8; 32],
    pub public: [u8; 32],
}

impl KeyPair {
    /// The public key really is the one the curve derives from the secret.
    pub open spec fn wf(&self) -> bool {
        self.public@ == public_of(self.secret@)
    }

    /// Builds a key pair from 32 bytes drawn from the caller's entropy
    /// source. The caller must not hand the same bytes to two pairs meant
    /// to be independent.
    pub fn from_seed(seed: &[u8; 32]) -> (kp: KeyPair)
        ensures
            kp.secret@ == seed@,
            kp.public@ == public_of(seed@),
            kp.wf(),
    {
        let public = x25519_public(seed);
        KeyPair { secret: *seed, public }
    }

    /// The shared secret of this pair's secret key and a peer's public key.
    pub fn diffie_hellman(&self, peer_public: &[u8; 32]) -> (r: [u8; 32])
        ensures
            r@ == shared_of(self.secret@, peer_public@),
    {
        x25519_shared(&self.secret, peer_public)
    }
}

} // verus!
