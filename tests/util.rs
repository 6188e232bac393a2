use kunzite::util::{is_set, lower, set_bit, slice_to_string, unset_bit, upper, Color};

#[test]
fn word_halves() {
    assert_eq!(upper(0xABCD), 0xAB);
    assert_eq!(lower(0xABCD), 0xCD);
}

#[test]
fn single_bits() {
    assert!(is_set(0x80, 7));
    assert!(!is_set(0x80, 6));
    assert_eq!(set_bit(0x00, 3), 0x08);
    assert_eq!(unset_bit(0xFF, 0), 0xFE);
}

#[test]
fn zero_bytes_are_left_out() {
    assert_eq!(slice_to_string(&[b'A', 0, b'B', 0, 0]), "AB");
    assert_eq!(slice_to_string(&[]), "");
}

#[test]
fn colours() {
    assert_eq!(Color::black(), Color { r: 0, g: 0, b: 0 });
    assert_eq!(Color::white(), Color { r: 255, g: 255, b: 255 });
}
