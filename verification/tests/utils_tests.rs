use simetry::utils::{cp1252_decode_byte, cp1252_to_string};

#[test]
fn cp1252_plain_ascii() {
    assert_eq!(cp1252_to_string(b"Hello, World"), "Hello, World");
}

#[test]
fn cp1252_empty_input() {
    assert_eq!(cp1252_to_string(&[]), "");
}

#[test]
fn cp1252_stops_at_first_nul() {
    assert_eq!(cp1252_to_string(b"ab\0cd\0"), "ab");
    assert_eq!(cp1252_to_string(b"\0abc"), "");
}

#[test]
fn cp1252_typographic_range() {
    assert_eq!(cp1252_to_string(&[0x80, 0x99, 0x96, 0x9F]), "\u{20AC}\u{2122}\u{2013}\u{0178}");
}

#[test]
fn cp1252_latin1_range() {
    assert_eq!(cp1252_to_string(&[0x43, 0x61, 0x66, 0xE9]), "Café");
    assert_eq!(cp1252_to_string(&[0xA0, 0xFF]), "\u{A0}\u{FF}");
}

#[test]
fn cp1252_unassigned_bytes_map_to_controls() {
    for b in [0x81u8, 0x8D, 0x8F, 0x90, 0x9D] {
        assert_eq!(cp1252_decode_byte(b), char::from(b));
    }
}

#[test]
fn cp1252_single_bytes() {
    assert_eq!(cp1252_decode_byte(b'A'), 'A');
    assert_eq!(cp1252_decode_byte(0x8A), '\u{0160}');
    assert_eq!(cp1252_decode_byte(0x85), '\u{2026}');
    assert_eq!(cp1252_decode_byte(0x7F), '\u{7F}');
}
