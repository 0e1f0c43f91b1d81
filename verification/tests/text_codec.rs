//! String marshalling across the encoding boundary.

use kson_bridge::str_of_utf16;
use kson_bridge::utf16_of_str;

#[test]
fn ascii_round_trips() {
    let s = "key: [1, 2, 3, 4]";
    let units = utf16_of_str(s);
    assert_eq!(units.len(), s.len());
    assert_eq!(str_of_utf16(&units), s);
}

#[test]
fn empty_round_trips() {
    let units = utf16_of_str("");
    assert!(units.is_empty());
    assert_eq!(str_of_utf16(&units), "");
}

#[test]
fn basic_plane_units_are_code_points() {
    let units = utf16_of_str("A\u{00E9}\u{4E2D}");
    assert_eq!(units, vec![0x41, 0xE9, 0x4E2D]);
    assert_eq!(str_of_utf16(&units), "A\u{00E9}\u{4E2D}");
}

#[test]
fn supplementary_plane_uses_surrogate_pairs() {
    let s = "\u{1F389}";
    let units = utf16_of_str(s);
    assert_eq!(units, vec![0xD83C, 0xDF89]);
    assert_eq!(str_of_utf16(&units), s);
}

#[test]
fn mixed_text_round_trips() {
    let s = "plain \u{00FC} \u{1F600} end";
    assert_eq!(str_of_utf16(&utf16_of_str(s)), s);
}

#[test]
fn unpaired_high_surrogate_decodes_lossily() {
    let units = vec![0x41, 0xD800, 0x42];
    assert_eq!(str_of_utf16(&units), "A\u{FFFD}B");
}

#[test]
fn unpaired_low_surrogate_decodes_lossily() {
    let units = vec![0xDC00];
    assert_eq!(str_of_utf16(&units), "\u{FFFD}");
}

#[test]
fn high_surrogate_at_end_decodes_lossily() {
    let units = vec![0x41, 0xD83C];
    assert_eq!(str_of_utf16(&units), "A\u{FFFD}");
}

#[test]
fn proper_pair_after_lone_surrogate() {
    let units = vec![0xD800, 0xD83C, 0xDF89];
    assert_eq!(str_of_utf16(&units), "\u{FFFD}\u{1F389}");
}
