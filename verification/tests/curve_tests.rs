use ecdh_test::curve::KeyPair;

fn from_hex(s: &str) -> [u8; 32] {
    fn nibble(c: u8) -> u8 {
        match c {
            b'0'..=b'9' => c - b'0',
            b'a'..=b'f' => c - b'a' + 10,
            _ => panic!("bad hex digit"),
        }
    }
    let b = s.as_bytes();
    assert_eq!(b.len(), 64);
    let mut out = [0u8; 32];
    for i in 0..32 {
        out[i] = (nibble(b[2 * i]) << 4) | nibble(b[2 * i + 1]);
    }
    out
}

// The key-agreement vectors of RFC 7748, section 6.1.
const A_SECRET: &str = "77076d0a7318a57d3c16c17251b26645df4c2f87ebc0992ab177fba51db92c2a";
const A_PUBLIC: &str = "8520f0098930a754748b7ddcb43ef75a0dbf3a0d26381af4eba4a98eaa9b4e6a";
const B_SECRET: &str = "5dab087e624a8a4b79e17f8b83800ee66f3bb1292618b6fd1c2f8b27ff88e0eb";
const B_PUBLIC: &str = "de9edb7d7b7dc1b4d35b61c2ece435373f8343c85b78674dadfc7e146f882b4f";
const SHARED: &str = "4a5d9d5ba4ce2de1728e3bf480350f25e07e21c947d19e3376f09b3c1e161742";

#[test]
fn public_key_derivation_matches_reference_vectors() {
    let a = KeyPair::from_seed(&from_hex(A_SECRET));
    let b = KeyPair::from_seed(&from_hex(B_SECRET));
    assert_eq!(a.secret, from_hex(A_SECRET));
    assert_eq!(a.public, from_hex(A_PUBLIC));
    assert_eq!(b.public, from_hex(B_PUBLIC));
}

#[test]
fn shared_secret_matches_reference_vector() {
    let a = KeyPair::from_seed(&from_hex(A_SECRET));
    let b = KeyPair::from_seed(&from_hex(B_SECRET));
    assert_eq!(a.diffie_hellman(&b.public), from_hex(SHARED));
    assert_eq!(b.diffie_hellman(&a.public), from_hex(SHARED));
}

#[test]
fn diffie_hellman_is_symmetric() {
    let pairs = [
        (from_hex(A_SECRET), from_hex(B_SECRET)),
        ([0x01u8; 32], [0x02u8; 32]),
        ([0xa7u8; 32], [0x3cu8; 32]),
    ];
    for (sa, sb) in pairs {
        let a = KeyPair::from_seed(&sa);
        let b = KeyPair::from_seed(&sb);
        assert_eq!(a.diffie_hellman(&b.public), b.diffie_hellman(&a.public));
    }
}
