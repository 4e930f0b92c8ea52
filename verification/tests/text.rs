use shell_backend::text::decode_lossy;

#[test]
fn decodes_plain_text_unchanged() {
    assert_eq!(decode_lossy(b"hi\n"), "hi\n");
}

#[test]
fn decodes_nothing_to_nothing() {
    assert_eq!(decode_lossy(b""), "");
}

#[test]
fn decodes_multi_byte_characters() {
    assert_eq!(decode_lossy(&[240, 159, 146, 150]), "💖");
    assert_eq!(decode_lossy("Zoë — ok".as_bytes()), "Zoë — ok");
}

#[test]
fn replaces_a_byte_that_starts_nothing() {
    assert_eq!(decode_lossy(&[0xff]), "\u{FFFD}");
    assert_eq!(decode_lossy(&[b'a', 0x80, b'b']), "a\u{FFFD}b");
}

#[test]
fn replaces_a_truncated_sequence_once() {
    assert_eq!(decode_lossy(b"Hello \xF0\x90\x80World"), "Hello \u{FFFD}World");
}

#[test]
fn decoding_is_repeatable() {
    let bytes: [u8; 5] = [0xc3, 0x28, 0xa0, 0xa1, b'z'];
    assert_eq!(decode_lossy(&bytes), decode_lossy(&bytes));
    assert!(decode_lossy(&bytes).ends_with('z'));
}

#[test]
fn malformed_bytes_leave_a_replacement_character() {
    let inputs: [&[u8]; 5] = [&[0x80], &[0xc0, 0xaf], &[0xed, 0xa0, 0x80], &[0xf4, 0x90, 0x80, 0x80], &[b'a', 0xe2, 0x82]];
    for bytes in inputs {
        assert!(decode_lossy(bytes).contains('\u{FFFD}'));
    }
}

#[test]
fn only_empty_output_gives_empty_text() {
    assert!(decode_lossy(&[]).is_empty());
    assert!(!decode_lossy(&[0]).is_empty());
    assert!(!decode_lossy(&[b' ']).is_empty());
    assert!(!decode_lossy(&[0xff]).is_empty());
    assert!(!decode_lossy(&[0xe2, 0x82]).is_empty());
}

#[test]
fn encoded_text_comes_back_unchanged() {
    for text in ["", "a", "line one\nline two\r\n", "ñ€𝄞", "\u{FFFD}", "\0"] {
        assert_eq!(decode_lossy(text.as_bytes()), text);
    }
}
