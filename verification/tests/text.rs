use isolang::slices::part;
use isolang::text::{byte_len, str_eq, three_letter_key};

#[test]
fn strings_are_equal_when_their_characters_are() {
    assert!(str_eq("", ""));
    assert!(str_eq("deu", "deu"));
    assert!(str_eq("français", "français"));
    assert!(!str_eq("deu", "deU"));
    assert!(!str_eq("deu", "de"));
    assert!(!str_eq("de", "deu"));
    assert!(!str_eq("", "a"));
    assert!(!str_eq("e\u{301}", "é"));
}

#[test]
fn the_length_in_bytes_counts_bytes() {
    assert_eq!(byte_len(""), 0);
    assert_eq!(byte_len("deu"), 3);
    assert_eq!(byte_len("é"), 2);
    assert_eq!(byte_len("€"), 3);
}

#[test]
fn the_key_of_a_code_reads_its_letters_as_digits() {
    assert_eq!(three_letter_key("aaa"), 97 * 65536 + 97 * 256 + 97);
    assert_eq!(three_letter_key("deu"), 6579573);
    assert_eq!(three_letter_key("zzz"), 8026746);
    assert!(three_letter_key("aar") < three_letter_key("abk"));
    assert!(three_letter_key("azz") < three_letter_key("baa"));
}

#[test]
fn a_part_of_a_string_is_cut_at_bytes() {
    let text = "ä\tde\tö";
    assert_eq!(part(text, 0, 2), "ä");
    assert_eq!(part(text, 3, 5), "de");
    assert_eq!(part(text, 6, 8), "ö");
    assert_eq!(part(text, 3, 3), "");
    assert_eq!(part(text, 8, 8), "");
    assert_eq!(part(text, 0, 8), text);
}
