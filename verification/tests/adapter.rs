use isolang::adapter::DecodeError;
use isolang::{languages, Language};

#[test]
fn a_language_is_read_back_from_what_was_written() {
    for language in languages() {
        let written = language.to_639_3();
        assert_eq!(Language::decode_str(written).unwrap(), language);
        assert_eq!(Language::decode_bytes(written.as_bytes()).unwrap(), language);
        assert_eq!(Language::from_column(written).unwrap(), language);
        if let Some(code) = language.to_639_1() {
            assert_eq!(Language::decode_str(code).unwrap(), language);
            assert_eq!(Language::decode_bytes(code.as_bytes()).unwrap(), language);
        }
    }
}

#[test]
fn unknown_text_is_not_read_as_a_language() {
    match Language::decode_str("foo") {
        Err(DecodeError::UnknownCode(text)) => assert_eq!(text, "foo"),
        other => panic!("{:?}", other),
    }
    match Language::decode_bytes(b"foo") {
        Err(DecodeError::UnknownCode(text)) => assert_eq!(text, "foo"),
        other => panic!("{:?}", other),
    }
    match Language::decode_bytes("ää".as_bytes()) {
        Err(DecodeError::UnknownCode(text)) => assert_eq!(text, "ää"),
        other => panic!("{:?}", other),
    }
    assert!(Language::decode_str("123").is_err());
    assert!(Language::decode_str("").is_err());
}

#[test]
fn bytes_that_are_no_text_are_not_read_as_a_language() {
    for bytes in [&[0xff][..], &[b'd', b'e', 0x80][..], &[0xc3][..], &[0xed, 0xa0, 0x80][..]] {
        match Language::decode_bytes(bytes) {
            Err(DecodeError::InvalidBytes(given)) => assert_eq!(given, bytes),
            other => panic!("{:?}", other),
        }
    }
}

#[test]
fn a_column_holds_a_three_letter_code() {
    assert_eq!(Language::from_column("deu").unwrap(), Language::Deu);
    assert_eq!(Language::from_column("de").unwrap_err().0, "de");
    assert_eq!(Language::from_column("german").unwrap_err().0, "german");
    assert_eq!(Language::from_column("").unwrap_err().0, "");
}
