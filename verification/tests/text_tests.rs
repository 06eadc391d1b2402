use ecdh_test::text::{bytes_to_log_string, format_hex, trimmed};

#[test]
fn format_hex_exact() {
    assert_eq!(format_hex(&[0xde, 0xad, 0xbe, 0xef]).as_str(), "de ad be ef ");
}

#[test]
fn format_hex_empty() {
    assert_eq!(format_hex(&[]).as_str(), "");
}

#[test]
fn format_hex_covers_both_nibbles() {
    assert_eq!(format_hex(&[0x00, 0x0f, 0xf0, 0xff, 0x5a]).as_str(), "00 0f f0 ff 5a ");
}

#[test]
fn wrapped_hex_breaks_every_sixteen_bytes() {
    let bytes: Vec<u8> = (0u8..17).collect();
    assert_eq!(
        bytes_to_log_string(&bytes).as_str(),
        "00 01 02 03 04 05 06 07 08 09 0a 0b 0c 0d 0e 0f \n10 "
    );
}

#[test]
fn wrapped_hex_no_break_at_or_under_sixteen() {
    let bytes: Vec<u8> = (0u8..16).collect();
    assert_eq!(
        bytes_to_log_string(&bytes).as_str(),
        "00 01 02 03 04 05 06 07 08 09 0a 0b 0c 0d 0e 0f "
    );
}

#[test]
fn trimmed_strips_surrounding_whitespace() {
    assert_eq!(trimmed("  run \t"), "run");
    assert_eq!(trimmed("\nclear"), "clear");
    assert_eq!(trimmed("a b"), "a b");
    assert_eq!(trimmed(""), "");
    assert_eq!(trimmed(" \t\r\n"), "");
}

#[test]
fn trimmed_matches_std_trim() {
    for s in ["  run ", "\u{3000}run\u{A0}", "x", " inner  space ", "\t\t"] {
        assert_eq!(trimmed(s), s.trim());
    }
}
