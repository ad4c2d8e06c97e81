use rusted::process::{decode, decode_or_placeholder};

#[test]
fn decode_gives_the_text_of_valid_utf8() {
    assert_eq!(decode(b"plain"), Some("plain".to_string()));
    assert_eq!(decode(b""), Some(String::new()));
    assert_eq!(decode("gr\u{fc}n \u{2603} \u{1f600}".as_bytes()), Some("gr\u{fc}n \u{2603} \u{1f600}".to_string()));
}

#[test]
fn decode_refuses_what_is_not_utf8() {
    assert_eq!(decode(&[0xff]), None);
    assert_eq!(decode(&[b'a', 0xc3]), None);
    assert_eq!(decode(&[0xed, 0xa0, 0x80]), None);
    assert_eq!(decode(&[0xc0, 0x80]), None);
}

#[test]
fn decoded_text_encodes_to_the_same_bytes() {
    let bytes = "a\u{e9}\u{20ac}\u{10348}\r\n".as_bytes();
    assert_eq!(decode(bytes).unwrap().as_bytes(), bytes);
}

#[test]
fn placeholder_stands_for_invalid_bytes() {
    assert_eq!(decode_or_placeholder(b"fine"), "fine");
    assert_eq!(decode_or_placeholder(&[0x80, 0x81]), "<invalid utf8>");
}
