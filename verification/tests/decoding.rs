use repline::Decoder;
use repline::EditAction;
use repline::InputType;

#[test]
fn plain_characters_become_insert_actions() {
    let mut d = Decoder::new();
    assert_eq!(d.step(b'a'), Some(EditAction::Insert('a')));
    assert_eq!(d.step(b'Z'), Some(EditAction::Insert('Z')));
    assert_eq!(d.step(b' '), Some(EditAction::Insert(' ')));
    assert_eq!(d.step(b'~'), Some(EditAction::Insert('~')));
}

#[test]
fn control_bytes_map_to_actions() {
    let mut d = Decoder::new();
    assert_eq!(d.step(0x0D), Some(EditAction::Enter));
    assert_eq!(d.step(0x0A), Some(EditAction::Enter));
    assert_eq!(d.step(0x08), Some(EditAction::DeleteBackward));
    assert_eq!(d.step(0x7F), Some(EditAction::DeleteBackward));
    assert_eq!(d.step(b'q'), Some(EditAction::Terminate));
    assert_eq!(d.step(0x03), Some(EditAction::Terminate));
}

#[test]
fn arrow_keys_decode_to_actions() {
    let mut d = Decoder::new();
    assert_eq!(d.step(0x1B), None);
    assert_eq!(d.state(), InputType::Escape);
    assert_eq!(d.step(b'['), None);
    assert_eq!(d.state(), InputType::EscapeSequence);
    assert_eq!(d.step(b'A'), Some(EditAction::HistoryPrev));
    assert_eq!(d.state(), InputType::Normal);

    for (tail, action) in [
        (b'B', EditAction::HistoryNext),
        (b'C', EditAction::CursorRight),
        (b'D', EditAction::CursorLeft),
    ] {
        assert_eq!(d.step(0x1B), None);
        assert_eq!(d.step(b'['), None);
        assert_eq!(d.step(tail), Some(action));
    }
}

#[test]
fn unrecognized_single_escape_is_dropped() {
    // ESC followed by anything but '[' falls back to Normal with no action.
    let mut d = Decoder::new();
    assert_eq!(d.step(0x1B), None);
    assert_eq!(d.step(b'x'), None);
    assert_eq!(d.state(), InputType::Normal);
    assert_eq!(d.step(b'a'), Some(EditAction::Insert('a')));
}

#[test]
fn unrecognized_sequence_tail_resets_to_normal() {
    // An unrecognized byte after "ESC [" still returns the decoder to
    // Normal mode.
    let mut d = Decoder::new();
    assert_eq!(d.step(0x1B), None);
    assert_eq!(d.step(b'['), None);
    assert_eq!(d.step(b'Z'), None);
    assert_eq!(d.state(), InputType::Normal);
    assert_eq!(d.step(b'b'), Some(EditAction::Insert('b')));
}

#[test]
fn two_byte_sequence_decodes() {
    let mut d = Decoder::new();
    assert_eq!(d.step(0xC3), None);
    assert_eq!(d.step(0xA9), Some(EditAction::Insert('\u{e9}')));
}

#[test]
fn three_byte_sequence_decodes() {
    let mut d = Decoder::new();
    assert_eq!(d.step(0xE2), None);
    assert_eq!(d.step(0x82), None);
    assert_eq!(d.step(0xAC), Some(EditAction::Insert('\u{20ac}')));
}

#[test]
fn four_byte_sequence_decodes() {
    let mut d = Decoder::new();
    assert_eq!(d.step(0xF0), None);
    assert_eq!(d.step(0x9F), None);
    assert_eq!(d.step(0x98), None);
    assert_eq!(d.step(0x80), Some(EditAction::Insert('\u{1f600}')));
}

#[test]
fn overlong_encoding_is_rejected() {
    // 0xC0 0x80 would decode to 0, an overlong form: dropped, no action.
    let mut d = Decoder::new();
    assert_eq!(d.step(0xC0), None);
    assert_eq!(d.step(0x80), None);
    assert_eq!(d.step(b'a'), Some(EditAction::Insert('a')));
}

#[test]
fn surrogate_encoding_is_rejected() {
    // 0xED 0xA0 0x80 would decode into the surrogate range: dropped.
    let mut d = Decoder::new();
    assert_eq!(d.step(0xED), None);
    assert_eq!(d.step(0xA0), None);
    assert_eq!(d.step(0x80), None);
    assert_eq!(d.step(b'a'), Some(EditAction::Insert('a')));
}

#[test]
fn out_of_range_four_byte_encoding_is_rejected() {
    // 0xF7 leads a four-byte form beyond U+10FFFF: dropped.
    let mut d = Decoder::new();
    assert_eq!(d.step(0xF7), None);
    assert_eq!(d.step(0xBF), None);
    assert_eq!(d.step(0xBF), None);
    assert_eq!(d.step(0xBF), None);
    assert_eq!(d.step(b'a'), Some(EditAction::Insert('a')));
}

#[test]
fn stray_continuation_byte_is_ignored() {
    let mut d = Decoder::new();
    assert_eq!(d.step(0x80), None);
    assert_eq!(d.step(0xBF), None);
    assert_eq!(d.step(b'a'), Some(EditAction::Insert('a')));
}

#[test]
fn interrupted_sequence_discards_pending_bytes() {
    // A non-continuation byte in the middle of a multi-byte character
    // drops the accumulated bytes and is handled on its own.
    let mut d = Decoder::new();
    assert_eq!(d.step(0xC3), None);
    assert_eq!(d.step(b'a'), Some(EditAction::Insert('a')));

    assert_eq!(d.step(0xE2), None);
    assert_eq!(d.step(0x82), None);
    assert_eq!(d.step(0x0D), Some(EditAction::Enter));
}

#[test]
fn tab_is_not_insertable() {
    let mut d = Decoder::new();
    assert_eq!(d.step(b'\t'), None);
}

#[test]
fn nonbreaking_space_is_insertable() {
    // U+00A0 is whitespace other than tab, so it is inserted.
    let mut d = Decoder::new();
    assert_eq!(d.step(0xC2), None);
    assert_eq!(d.step(0xA0), Some(EditAction::Insert('\u{a0}')));
}

#[test]
fn c1_control_character_is_not_inserted() {
    // U+0090 is a control character: it decodes fine but is not inserted.
    let mut d = Decoder::new();
    assert_eq!(d.step(0xC2), None);
    assert_eq!(d.step(0x90), None);
}
