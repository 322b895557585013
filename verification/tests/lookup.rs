use isolang::{languages, Language};

#[test]
fn invalid_locale_gives_none() {
    assert!(Language::from_locale("foo").is_none());
    assert!(Language::from_locale("deu_DEU.UTF-8").is_none());
    assert!(Language::from_locale("___").is_none());
    assert!(Language::from_locale("ää_öö.UTF-8").is_none());
}

#[test]
fn test_valid_locales_are_correctly_decoded() {
    assert_eq!(Language::from_locale("de_DE.UTF-8"), Some(Language::Deu));
    assert_eq!(Language::from_locale("en_GB.UTF-8"), Some(Language::Eng));
}

#[test]
fn test_std_fmt() {
    let t = Language::Deu.to_string();
    assert_eq!(t, "German (Deutsch)");

    let t = Language::Deu.to_debug_string();
    assert_eq!(t, "deu");
}

#[test]
fn test_iso639_3_to_autonym() {
    assert_eq!(
        Language::from_639_3("bul").unwrap().to_autonym(),
        Some("български")
    );
    assert_eq!(
        Language::from_639_3("fra").unwrap().to_autonym(),
        Some("français")
    );
}

#[test]
fn test_default() {
    assert_eq!(Language::default(), Language::Und);
}

#[test]
fn test_ordering() {
    assert!(Language::Deu < Language::Fra);
    let fra = Language::Fra;
    assert!(fra <= Language::Fra);
}

#[test]
fn test_good_language_filtering() {
    let languages = languages();
    let languages_with_iso_639_1 = languages
        .into_iter()
        .filter(|language| language.to_639_1().is_some());
    for language in languages_with_iso_639_1 {
        assert!(language.to_639_1().is_some());
    }
}

#[test]
fn test_wrong_language_filtering() {
    let languages = languages();
    let languages_with_iso_639_1 = languages
        .into_iter()
        .filter(|language| language.to_639_1().is_none());
    for language in languages_with_iso_639_1 {
        assert!(language.to_639_1().is_none());
    }
}

#[test]
fn test_from_str() {
    assert_eq!(Language::from_str("deu").unwrap(), Language::Deu);
    assert_eq!(Language::from_str("fr").unwrap(), Language::Fra);
    assert_eq!(Language::from_str("english").unwrap(), Language::Eng);
    assert!(Language::from_str("foo").is_err());
}

#[test]
fn perfect_hash_finds_every_three_letter_code() {
    for language in languages() {
        assert_eq!(Language::hashed_639_3(language.to_639_3()), Some(language));
    }
}

#[test]
fn perfect_hash_finds_every_two_letter_code() {
    let mut with_code = 0;
    for language in languages() {
        if let Some(code) = language.to_639_1() {
            with_code += 1;
            assert_eq!(Language::hashed_639_1(code), Some(language));
        }
    }
    assert_eq!(with_code, 184);
}

#[test]
fn perfect_hash_rejects_unknown_codes() {
    assert_eq!(Language::hashed_639_3("xxx"), None);
    assert_eq!(Language::hashed_639_3("de"), None);
    assert_eq!(Language::hashed_639_1("xx"), None);
    assert_eq!(Language::hashed_639_1("deu"), None);
    assert_eq!(Language::hashed_639_1(""), None);
}
