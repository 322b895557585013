use isolang::render::display;
use isolang::{languages, Language, ParseLanguageError};

#[test]
fn names_are_those_of_the_table() {
    assert_eq!(Language::Spa.to_name(), "Spanish");
    assert_eq!(Language::Swa.to_name(), "Swahili");
    assert_eq!(Language::Swh.to_name(), "Swahili");
    assert_eq!(Language::Ell.to_name(), "Modern Greek");
    assert_eq!(Language::from_639_1("de").unwrap().to_name(), "German");
    assert_eq!(Language::Bul.to_autonym(), Some("български"));
    assert_eq!(Language::Fra.to_autonym(), Some("français"));
    assert_eq!(Language::from_639_1("de").unwrap().to_autonym(), Some("Deutsch"));
    assert_eq!(Language::Und.to_autonym(), None);
    for language in languages() {
        assert!(!language.to_name().is_empty());
        assert_ne!(language.to_autonym(), Some(""));
    }
}

#[test]
fn a_name_leads_to_the_first_language_with_it() {
    assert_eq!(Language::from_name("Spanish"), Some(Language::Spa));
    assert_eq!(Language::from_name("German"), Some(Language::Deu));
    assert_eq!(Language::from_name("Swahili"), Some(Language::Swa));
    assert_eq!(Language::from_name("Afar"), Some(Language::Aar));
    assert_eq!(Language::from_name("No linguistic content"), Some(Language::Zxx));
    assert_eq!(Language::from_name("german"), None);
    assert_eq!(Language::from_name("Germa"), None);
    assert_eq!(Language::from_name("German "), None);
    assert_eq!(Language::from_name(""), None);
    let all = languages();
    for language in &all {
        let first = all.iter().copied().find(|l| l.to_name() == language.to_name());
        assert_eq!(Language::from_name(language.to_name()), first);
    }
}

#[test]
fn a_lower_case_name_leads_to_the_first_language_with_it() {
    assert_eq!(
        Language::from_name_lowercase(&"spanish".to_ascii_lowercase()),
        Some(Language::Spa)
    );
    assert_eq!(Language::from_name_lowercase("english"), Some(Language::Eng));
    assert_eq!(Language::from_name_lowercase("swahili"), Some(Language::Swa));
    assert_eq!(Language::from_name_lowercase("norwegian bokmål"), Some(Language::Nob));
    assert_eq!(Language::from_name_lowercase("English"), None);
    assert_eq!(Language::from_name_lowercase(""), None);
    let all = languages();
    for language in &all {
        let lower = language.to_name().to_lowercase();
        let first = all.iter().copied().find(|l| l.to_name().to_lowercase() == lower);
        assert_eq!(Language::from_name_lowercase(&lower), first);
    }
}

#[test]
fn an_autonym_leads_to_the_first_language_with_it() {
    assert_eq!(Language::from_autonym("Deutsch"), Some(Language::Deu));
    assert_eq!(Language::from_autonym("français"), Some(Language::Fra));
    assert_eq!(Language::from_autonym("isiNdebele"), Some(Language::Nbl));
    assert_eq!(Language::from_autonym("deutsch"), None);
    assert_eq!(Language::from_autonym(""), None);
    let all = languages();
    for language in &all {
        if let Some(autonym) = language.to_autonym() {
            let first = all.iter().copied().find(|l| l.to_autonym() == Some(autonym));
            assert_eq!(Language::from_autonym(autonym), first);
        }
    }
}

#[test]
fn names_are_matched_in_table_order() {
    let found = Language::match_names(|name| name.contains("Engl"));
    assert_eq!(found, [Language::Ang, Language::Eng, Language::Enm]);
    assert!(found.len() > 1);
    let all = Language::match_names(|_| true);
    assert_eq!(all, languages());
    let none = Language::match_names(|_| false);
    assert!(none.is_empty());
    let swahili = Language::match_names(|name| name == "Swahili");
    assert_eq!(swahili, [Language::Swa, Language::Swh]);
}

#[test]
fn autonyms_are_matched_in_table_order() {
    assert_eq!(Language::match_autonyms(|autonym| autonym.contains("Deutsch")).len(), 1);
    assert_eq!(
        Language::match_autonyms(|autonym| autonym.contains("Deutsch")),
        [Language::Deu]
    );
    let all = Language::match_autonyms(|_| true);
    let expected: Vec<Language> =
        languages().into_iter().filter(|l| l.to_autonym().is_some()).collect();
    assert_eq!(all, expected);
    assert!(all.len() < languages().len());
    assert!(Language::match_autonyms(|autonym| autonym.is_empty()).is_empty());
}

#[test]
fn matching_twice_gives_the_same_languages() {
    let first = Language::match_names(|name| name.starts_with('S'));
    let second = Language::match_names(|name| name.starts_with('S'));
    assert!(!first.is_empty());
    assert_eq!(first, second);
    let first = Language::match_autonyms(|autonym| autonym.len() > 10);
    let second = Language::match_autonyms(|autonym| autonym.len() > 10);
    assert!(!first.is_empty());
    assert_eq!(first, second);
    assert_eq!(languages(), languages());
}

#[test]
fn a_language_is_shown_with_its_name_and_autonym() {
    assert_eq!(Language::Deu.to_string(), "German (Deutsch)");
    assert_eq!(Language::Bul.to_string(), "Bulgarian (български)");
    assert_eq!(Language::Und.to_string(), "Undetermined");
    assert_eq!(Language::Gha.to_string(), "Ghadamès");
    assert_eq!(Language::Und.to_debug_string(), "und");
    for language in languages() {
        assert_eq!(language.to_debug_string(), language.to_639_3());
    }
}

#[test]
fn what_is_known_of_a_language_decides_how_it_is_shown() {
    assert_eq!(display("deu", Some("German"), Some("Deutsch")), "German (Deutsch)");
    assert_eq!(display("deu", None, Some("Deutsch")), "Deutsch");
    assert_eq!(display("deu", Some("German"), None), "German");
    assert_eq!(display("deu", None, None), "deu");
    assert_eq!(display("", Some(""), Some("")), " ()");
}

#[test]
fn text_is_read_as_a_code_before_it_is_read_as_a_name() {
    assert_eq!(Language::from_str("und").unwrap(), Language::Und);
    assert_eq!(Language::from_str("de").unwrap(), Language::Deu);
    assert_eq!(Language::from_str("german").unwrap(), Language::Deu);
    assert_eq!(Language::from_str("ido").unwrap(), Language::Ido);
    assert_eq!(Language::from_str("twi").unwrap(), Language::Twi);
    assert!(Language::from_str("German").is_err());
    assert!(Language::from_str("").is_err());
    assert!(Language::from_str("DE").is_err());
    for language in languages() {
        assert_eq!(Language::from_str(language.to_639_3()).unwrap(), language);
        if let Some(code) = language.to_639_1() {
            assert_eq!(Language::from_str(code).unwrap(), language);
        }
    }
}

#[test]
fn text_that_is_no_language_comes_back_in_the_error() {
    let error: ParseLanguageError = Language::from_str("foo").unwrap_err();
    assert_eq!(error.input(), "foo");
    assert_eq!(error.to_string(), "'foo' is not a valid ISO 639-1 or 639-3 code.");
    let error = Language::from_str("").unwrap_err();
    assert_eq!(error.input(), "");
    assert_eq!(error.to_string(), "'' is not a valid ISO 639-1 or 639-3 code.");
}
