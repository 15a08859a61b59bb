use cabi::message::c_string;

#[test]
fn ascii_text_is_copied_and_terminated() {
    assert_eq!(c_string("abc"), vec![97u8, 98, 99, 0]);
}

#[test]
fn empty_text_is_the_terminator_alone() {
    assert_eq!(c_string(""), vec![0u8]);
}

#[test]
fn text_is_encoded_as_utf8() {
    assert_eq!(c_string("é"), vec![0xC3u8, 0xA9, 0]);
    assert_eq!(c_string("€"), vec![0xE2u8, 0x82, 0xAC, 0]);
    assert_eq!(c_string("𝄞"), vec![0xF0u8, 0x9D, 0x84, 0x9E, 0]);
}

#[test]
fn message_is_one_byte_longer_than_the_text() {
    for text in ["", "x", "no such arch", "größer", "日本語"] {
        let bytes = c_string(text);
        assert_eq!(bytes.len(), text.len() + 1);
        assert_eq!(&bytes[..text.len()], text.as_bytes());
        assert_eq!(bytes[text.len()], 0);
    }
}

#[test]
fn message_reads_back_as_the_text() {
    for text in ["", "internal error", "naïve café", "a\u{0}b"] {
        let bytes = c_string(text);
        let body = &bytes[..bytes.len() - 1];
        assert_eq!(std::str::from_utf8(body).unwrap(), text);
    }
}

#[test]
fn text_without_nul_has_the_terminator_as_its_only_zero_byte() {
    for text in ["no such file", "ünïcödé \u{7ff} \u{800} \u{ffff} \u{10000} \u{10ffff}"] {
        let bytes = c_string(text);
        let first_zero = bytes.iter().position(|b| *b == 0);
        assert_eq!(first_zero, Some(bytes.len() - 1));
    }
}

#[test]
fn inner_nul_is_kept_as_it_is() {
    assert_eq!(c_string("a\u{0}b"), vec![97u8, 0, 98, 0]);
}

#[test]
fn two_messages_of_one_text_are_separate_buffers() {
    let text = String::from("shared");
    let first = c_string(&text);
    let mut second = c_string(&text);
    second[0] = b'S';
    drop(text);
    assert_eq!(first, b"shared\0".to_vec());
    assert_eq!(second, b"Shared\0".to_vec());
}
