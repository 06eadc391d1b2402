//! The diagnostic engine: one fixed key-exchange run per invocation. It
//! draws two independent key pairs from caller-supplied entropy, computes
//! the shared secret, classifies it against the two public keys, and
//! appends a human-readable trace to the message log.

use vstd::prelude::*;

use crate::curve::{public_of, shared_of, KeyPair};
use crate::message_log::{log_append_all, MessageLog};
use crate::text::{format_hex, hex_of};

verus! {

/// How a run's shared secret relates to the two public keys of the
/// exchange. The two `Matches` variants are reported findings — the bug
/// this tool exists to surface — not failures.
#[derive(Clone, Copy, Debug, PartialEq, Eq, Structural)]
pub enum DiagnosticVerdict {
    /// The shared secret equals the peer's public key.
    MatchesRemotePublic,
    /// The shared secret equals the local public key.
    MatchesLocalPublic,
    /// The shared secret differs from both public keys.
    Distinct,
}

/// The classification rule: the peer's public key is checked first, then
/// the local one; exact byte equality decides both.
pub open spec fn classify_spec(
    shared: Seq<u8>,
    our_public: Seq<u8>,
    peer_public: Seq<u8>,
) -> DiagnosticVerdict {
    if shared == peer_public {
        DiagnosticVerdict::MatchesRemotePublic
    } else if shared == our_public {
        DiagnosticVerdict::MatchesLocalPublic
    } else {
        DiagnosticVerdict::Distinct
    }
}

/// The status line reported for a verdict.
pub open spec fn verdict_text(v: DiagnosticVerdict) -> Seq<char> {
    match v {
        DiagnosticVerdict::MatchesRemotePublic => "BUG: shared == peer_pub!"@,
        DiagnosticVerdict::MatchesLocalPublic => "BUG: shared == our_pub!"@,
        DiagnosticVerdict::Distinct => "OK: shared != any pubkey"@,
    }
}

/// Exactly one verdict holds of any classification inputs: the three
/// variants are exhaustive and mutually exclusive.
pub proof fn lemma_classify_exclusive(shared: Seq<u8>, our_public: Seq<u8>, peer_public: Seq<u8>)
    ensures
        classify_spec(shared, our_public, peer_public) == DiagnosticVerdict::MatchesRemotePublic
            <==> shared == peer_public,
        classify_spec(shared, our_public, peer_public) == DiagnosticVerdict::MatchesLocalPublic
            <==> (shared != peer_public && shared == our_public),
        classify_spec(shared, our_public, peer_public) == DiagnosticVerdict::Distinct <==> (
        shared != peer_public && shared != our_public),
{
}

fn bytes32_eq(a: &[u8; 32], b: &[u8; 32]) -> (r: bool)
    ensures
        r == (a@ == b@),
{
    let mut i: usize = 0;
    while i < 32
        invariant
            i <= 32,
            forall|k: int| 0 <= k < i ==> a@[k] == b@[k],
        decreases 32 - i,
    {
        if a[i] != b[i] {
            return false;
        }
        i = i + 1;
    }
    proof {
        assert(a@ =~= b@);
    }
    true
}

/// Classifies a shared secret against the two public keys of the exchange
/// by exact byte equality.
pub fn classify(shared: &[u8; 32], our_public: &[u8; 32], peer_public: &[u8; 32]) -> (v:
    DiagnosticVerdict)
    ensures
        v == classify_spec(shared@, our_public@, peer_public@),
{
    if bytes32_eq(shared, peer_public) {
        DiagnosticVerdict::MatchesRemotePublic
    } else if bytes32_eq(shared, our_public) {
        DiagnosticVerdict::MatchesLocalPublic
    } else {
        DiagnosticVerdict::Distinct
    }
}

/// The status line reported for a verdict.
pub fn verdict_str(v: DiagnosticVerdict) -> (r: &'static str)
    ensures
        r@ == verdict_text(v),
{
    match v {
        DiagnosticVerdict::MatchesRemotePublic => "BUG: shared == peer_pub!",
        DiagnosticVerdict::MatchesLocalPublic => "BUG: shared == our_pub!",
        DiagnosticVerdict::Distinct => "OK: shared != any pubkey",
    }
}

/// The ordered trace a run appends to the message log: step markers, the
/// hex-rendered key material, and the verdict status line.
pub open spec fn run_lines(our_seed: Seq<u8>, peer_seed: Seq<u8>) -> Seq<Seq<char>> {
    let our_public = public_of(our_seed);
    let peer_public = public_of(peer_seed);
    let shared = shared_of(our_seed, peer_public);
    seq![
        "=== ECDH TEST ==="@,
        "1. Generating our keypair..."@,
        "Our priv: "@ + hex_of(our_seed),
        "Our pub:  "@ + hex_of(our_public),
        "2. Generating peer keypair..."@,
        "Peer pub: "@ + hex_of(peer_public),
        "3. Computing ECDH..."@,
        "Shared:   "@ + hex_of(shared),
        "4. Checking results..."@,
        verdict_text(classify_spec(shared, our_public, peer_public)),
        "=== TEST COMPLETE ==="@,
    ]
}

fn append_labeled_hex(log: &mut MessageLog, label: &str, bytes: &[u8; 32])
    requires
        old(log).wf(),
    ensures
        final(log)@ == crate::message_log::log_append(old(log)@, label@ + hex_of(bytes@)),
        final(log).wf(),
{
    let mut m = String::from_str(label);
    let hx = format_hex(bytes.as_slice());
    m.append(hx.as_str());
    log.append(m.as_str());
}

/// One complete diagnostic run. Generates the local and the peer key pair
/// from the two independent entropy draws, computes the shared secret,
/// classifies it, appends the whole trace to the log, and returns the
/// material for out-of-band inspection.
pub fn run_diagnostic(log: &mut MessageLog, our_seed: &[u8; 32], peer_seed: &[u8; 32]) -> (r: (
    KeyPair,
    KeyPair,
    [u8; 32],
    DiagnosticVerdict,
))
    requires
        old(log).wf(),
    ensures
        final(log)@ == log_append_all(old(log)@, run_lines(our_seed@, peer_seed@)),
        final(log).wf(),
        r.0.secret@ == our_seed@ && r.0.wf(),
        r.1.secret@ == peer_seed@ && r.1.wf(),
        r.2@ == shared_of(our_seed@, public_of(peer_seed@)),
        r.3 == classify_spec(r.2@, r.0.public@, r.1.public@),
{
    let ghost l0 = log@;
    log.append("=== ECDH TEST ===");
    log.append("1. Generating our keypair...");
    let our = KeyPair::from_seed(our_seed);
    append_labeled_hex(log, "Our priv: ", &our.secret);
    append_labeled_hex(log, "Our pub:  ", &our.public);
    log.append("2. Generating peer keypair...");
    let peer = KeyPair::from_seed(peer_seed);
    append_labeled_hex(log, "Peer pub: ", &peer.public);
    log.append("3. Computing ECDH...");
    let shared = our.diffie_hellman(&peer.public);
    append_labeled_hex(log, "Shared:   ", &shared);
    log.append("4. Checking results...");
    let verdict = classify(&shared, &our.public, &peer.public);
    log.append(verdict_str(verdict));
    log.append("=== TEST COMPLETE ===");
    proof {
        reveal_with_fuel(log_append_all, 12);
        assert(final(log)@ == log_append_all(l0, run_lines(our_seed@, peer_seed@)));
    }
    (our, peer, shared, verdict)
}

} // verus!
