use ecdh_test::curve::KeyPair;
use ecdh_test::engine::{classify, run_diagnostic, verdict_str, DiagnosticVerdict};
use ecdh_test::message_log::MessageLog;
use ecdh_test::text::format_hex;

#[test]
fn classify_matches_remote_public() {
    let shared = [0x11u8; 32];
    let our = [0x22u8; 32];
    let peer = [0x11u8; 32];
    assert_eq!(classify(&shared, &our, &peer), DiagnosticVerdict::MatchesRemotePublic);
}

#[test]
fn classify_matches_local_public() {
    let shared = [0x11u8; 32];
    let our = [0x11u8; 32];
    let peer = [0x22u8; 32];
    assert_eq!(classify(&shared, &our, &peer), DiagnosticVerdict::MatchesLocalPublic);
}

#[test]
fn classify_distinct() {
    let shared = [0x11u8; 32];
    let our = [0x22u8; 32];
    let peer = [0x33u8; 32];
    assert_eq!(classify(&shared, &our, &peer), DiagnosticVerdict::Distinct);
}

#[test]
fn classify_checks_peer_key_first() {
    // When the shared secret equals both public keys, the peer key wins.
    let shared = [0x11u8; 32];
    assert_eq!(classify(&shared, &shared, &shared), DiagnosticVerdict::MatchesRemotePublic);
}

#[test]
fn verdict_strings_exact() {
    assert_eq!(verdict_str(DiagnosticVerdict::MatchesRemotePublic), "BUG: shared == peer_pub!");
    assert_eq!(verdict_str(DiagnosticVerdict::MatchesLocalPublic), "BUG: shared == our_pub!");
    assert_eq!(verdict_str(DiagnosticVerdict::Distinct), "OK: shared != any pubkey");
}

#[test]
fn run_appends_the_full_trace() {
    let mut log = MessageLog::new();
    let our_seed = [0x01u8; 32];
    let peer_seed = [0x02u8; 32];
    let (our, peer, shared, verdict) = run_diagnostic(&mut log, &our_seed, &peer_seed);

    assert_eq!(our.secret, our_seed);
    assert_eq!(peer.secret, peer_seed);
    assert_eq!(our.public, KeyPair::from_seed(&our_seed).public);
    assert_eq!(shared, our.diffie_hellman(&peer.public));
    assert_eq!(verdict, DiagnosticVerdict::Distinct);

    assert_eq!(log.len(), 11);
    assert_eq!(log.entry(0).as_str(), "=== ECDH TEST ===");
    assert_eq!(log.entry(1).as_str(), "1. Generating our keypair...");
    assert_eq!(
        log.entry(2).as_str(),
        format!("Our priv: {}", format_hex(&our_seed)).as_str()
    );
    assert_eq!(
        log.entry(3).as_str(),
        format!("Our pub:  {}", format_hex(&our.public)).as_str()
    );
    assert_eq!(log.entry(4).as_str(), "2. Generating peer keypair...");
    assert_eq!(
        log.entry(5).as_str(),
        format!("Peer pub: {}", format_hex(&peer.public)).as_str()
    );
    assert_eq!(log.entry(6).as_str(), "3. Computing ECDH...");
    assert_eq!(
        log.entry(7).as_str(),
        format!("Shared:   {}", format_hex(&shared)).as_str()
    );
    assert_eq!(log.entry(8).as_str(), "4. Checking results...");
    assert_eq!(log.entry(9).as_str(), "OK: shared != any pubkey");
    assert_eq!(log.entry(10).as_str(), "=== TEST COMPLETE ===");
}
