use fabric_ui::strext::StrExt;
use fabric_ui::strext::w_str;

#[test]
fn ascii_encodes_one_unit_per_character() {
    assert_eq!(w_str("A"), vec![0x41, 0]);
    assert_eq!(w_str("Hi!"), vec![0x48, 0x69, 0x21, 0]);
}

#[test]
fn the_empty_string_is_just_the_terminator() {
    assert_eq!(w_str(""), vec![0]);
}

#[test]
fn basic_multilingual_plane_stays_single_unit() {
    // U+20AC, the euro sign.
    assert_eq!(w_str("\u{20AC}"), vec![0x20AC, 0]);
}

#[test]
fn supplementary_plane_becomes_a_surrogate_pair() {
    // U+1D11E, the treble clef: 0x1D11E - 0x10000 = 0xD11E;
    // high 0xD800 + 0x34, low 0xDC00 + 0x11E.
    assert_eq!(w_str("\u{1D11E}"), vec![0xD834, 0xDD1E, 0]);
    assert_eq!("\u{1D11E}".to_w(), vec![0xD834, 0xDD1E, 0]);
}

#[test]
fn mixed_text_concatenates_in_order() {
    assert_eq!(w_str("a\u{1D11E}b"), vec![0x61, 0xD834, 0xDD1E, 0x62, 0]);
}
