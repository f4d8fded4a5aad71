use version_bridge::bridge::{construction_fallback_text, version_text};
use version_bridge::encoding::is_valid_utf8;

#[test]
fn version_bytes_pass_through() {
    assert_eq!(version_text(b"1.2.3"), "1.2.3");
}

#[test]
fn empty_bytes_give_empty_text() {
    assert_eq!(version_text(b""), "");
}

#[test]
fn two_byte_sequence_decoded() {
    assert_eq!(version_text(&[0xc3, 0xa9]), "\u{e9}");
}

#[test]
fn three_byte_sequence_decoded() {
    assert_eq!(version_text(&[0xe2, 0x82, 0xac]), "\u{20ac}");
}

#[test]
fn four_byte_sequence_decoded() {
    assert_eq!(version_text(&[0xf0, 0x9f, 0x98, 0x80]), "\u{1f600}");
}

#[test]
fn multibyte_version_round_trips() {
    let text = "7.0.1-\u{3b1}\u{1f680}";
    assert_eq!(version_text(text.as_bytes()), text);
}

#[test]
fn lone_continuation_byte_masked() {
    assert_eq!(version_text(&[0x80]), "unknown");
}

#[test]
fn overlong_encoding_masked() {
    assert_eq!(version_text(&[0xc0, 0x80]), "unknown");
}

#[test]
fn surrogate_encoding_masked() {
    assert_eq!(version_text(&[0xed, 0xa0, 0x80]), "unknown");
}

#[test]
fn truncated_sequence_masked() {
    assert_eq!(version_text(&[0xe2, 0x82]), "unknown");
}

#[test]
fn out_of_range_scalar_masked() {
    assert_eq!(version_text(&[0xf4, 0x90, 0x80, 0x80]), "unknown");
}

#[test]
fn invalid_tail_masks_whole_text() {
    assert_eq!(version_text(&[0x31, 0x2e, 0x32, 0xff]), "unknown");
}

#[test]
fn construction_fallback_is_error() {
    let s = construction_fallback_text();
    assert_eq!(s, "error");
    assert!(s.is_ascii());
}

#[test]
fn validity_check_accepts_well_formed_sequences() {
    assert!(is_valid_utf8(b"relay-core 1.2.3"));
    assert!(is_valid_utf8(&[0xc2, 0x80]));
    assert!(is_valid_utf8(&[0xdf, 0xbf]));
    assert!(is_valid_utf8(&[0xe0, 0xa0, 0x80]));
    assert!(is_valid_utf8(&[0xed, 0x9f, 0xbf]));
    assert!(is_valid_utf8(&[0xee, 0x80, 0x80]));
    assert!(is_valid_utf8(&[0xf0, 0x90, 0x80, 0x80]));
    assert!(is_valid_utf8(&[0xf4, 0x8f, 0xbf, 0xbf]));
}

#[test]
fn validity_check_rejects_malformed_sequences() {
    assert!(!is_valid_utf8(&[0xc2]));
    assert!(!is_valid_utf8(&[0xc1, 0xbf]));
    assert!(!is_valid_utf8(&[0xe0, 0x9f, 0xbf]));
    assert!(!is_valid_utf8(&[0xed, 0xa0, 0x80]));
    assert!(!is_valid_utf8(&[0xf0, 0x8f, 0x80, 0x80]));
    assert!(!is_valid_utf8(&[0xf5, 0x80, 0x80, 0x80]));
    assert!(!is_valid_utf8(&[0xf8]));
    assert!(!is_valid_utf8(&[0x41, 0x80]));
}
