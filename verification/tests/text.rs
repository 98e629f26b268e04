use uvc::text::decode_text;
use uvc::UvcError;

#[test]
fn absent_text_stays_absent() {
    assert_eq!(decode_text(None), Ok(None));
}

#[test]
fn empty_text_is_present_and_empty() {
    assert_eq!(decode_text(Some(Vec::new())), Ok(Some(String::new())));
    assert_ne!(decode_text(Some(Vec::new())), decode_text(None));
}

#[test]
fn ascii_text_is_decoded() {
    let bytes = vec![0x4c, 0x6f, 0x67, 0x69, 0x74, 0x65, 0x63, 0x68];
    assert_eq!(decode_text(Some(bytes)), Ok(Some(String::from("Logitech"))));
}

#[test]
fn multibyte_text_is_decoded() {
    // "Caméra 4K ✓": two-byte and three-byte sequences among ASCII.
    let bytes = vec![
        0x43, 0x61, 0x6d, 0xc3, 0xa9, 0x72, 0x61, 0x20, 0x34, 0x4b, 0x20, 0xe2, 0x9c, 0x93,
    ];
    let text = decode_text(Some(bytes)).unwrap().unwrap();
    assert_eq!(text, "Cam\u{e9}ra 4K \u{2713}");
    assert_eq!(text.chars().count(), 11);
}

#[test]
fn four_byte_sequence_is_one_character() {
    let text = decode_text(Some(vec![0xf0, 0x9f, 0x8e, 0xa5])).unwrap().unwrap();
    assert_eq!(text.chars().collect::<Vec<char>>(), vec!['\u{1f3a5}']);
}

#[test]
fn stray_continuation_byte_is_other() {
    assert_eq!(decode_text(Some(vec![0x41, 0x80, 0x42])), Err(UvcError::Other));
}

#[test]
fn truncated_sequence_is_other() {
    assert_eq!(decode_text(Some(vec![0x41, 0xc3])), Err(UvcError::Other));
}

#[test]
fn overlong_encoding_is_other() {
    assert_eq!(decode_text(Some(vec![0xc0, 0x80])), Err(UvcError::Other));
}

#[test]
fn encoded_surrogate_is_other() {
    assert_eq!(decode_text(Some(vec![0xed, 0xa0, 0x80])), Err(UvcError::Other));
}

#[test]
fn byte_that_never_occurs_in_utf8_is_other() {
    assert_eq!(decode_text(Some(vec![0xff])), Err(UvcError::Other));
}
