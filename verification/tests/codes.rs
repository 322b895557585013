use isolang::{languages, Language};

#[test]
fn every_three_letter_code_leads_back_to_its_language() {
    for language in languages() {
        assert_eq!(Language::from_639_3(language.to_639_3()), Some(language));
    }
}

#[test]
fn every_two_letter_code_leads_back_to_its_language() {
    for language in languages() {
        if let Some(code) = language.to_639_1() {
            assert_eq!(Language::from_639_1(code), Some(language));
        }
    }
}

#[test]
fn three_letter_codes_are_three_lower_case_letters() {
    for language in languages() {
        let code = language.to_639_3();
        assert_eq!(code.len(), 3);
        assert!(code.bytes().all(|b| b.is_ascii_lowercase()));
    }
}

#[test]
fn two_letter_codes_are_two_lower_case_letters() {
    for language in languages() {
        if let Some(code) = language.to_639_1() {
            assert_eq!(code.len(), 2);
            assert!(code.bytes().all(|b| b.is_ascii_lowercase()));
        }
    }
}

#[test]
fn no_two_languages_share_a_code() {
    let all = languages();
    for (i, a) in all.iter().enumerate() {
        for b in &all[i + 1..] {
            assert_ne!(a.to_639_3(), b.to_639_3());
            if a.to_639_1().is_some() {
                assert_ne!(a.to_639_1(), b.to_639_1());
            }
        }
    }
}

#[test]
fn three_letter_codes_grow_with_the_table() {
    let all = languages();
    for pair in all.windows(2) {
        assert!(pair[0].to_639_3() < pair[1].to_639_3());
    }
}

#[test]
fn known_codes_are_found() {
    assert_eq!(Language::from_639_1("de"), Some(Language::Deu));
    assert_eq!(Language::from_639_1("fr"), Some(Language::Fra));
    assert_eq!(Language::from_639_1("aa"), Some(Language::Aar));
    assert_eq!(Language::from_639_1("zu"), Some(Language::Zul));
    assert_eq!(Language::from_639_3("dan"), Some(Language::Dan));
    assert_eq!(Language::from_639_3("aar"), Some(Language::Aar));
    assert_eq!(Language::from_639_3("zxx"), Some(Language::Zxx));
    assert_eq!(Language::from_639_3("spa").unwrap().to_639_1(), Some("es"));
    assert_eq!(Language::Deu.to_639_3(), "deu");
    assert_eq!(Language::Deu.to_639_1(), Some("de"));
}

#[test]
fn languages_without_a_two_letter_code_have_none() {
    assert!(Language::Gha.to_639_1().is_none());
    assert!(Language::Und.to_639_1().is_none());
    assert!(Language::Swh.to_639_1().is_none());
}

#[test]
fn unknown_codes_are_not_found() {
    for code in ["", "d", "de", "xxx", "zzz", "aaa", "DEU", "Deu", "de ", "deut", "€", "äa", "d\u{0}u"] {
        assert_eq!(Language::from_639_3(code), None, "{:?}", code);
    }
    for code in ["", "d", "xx", "zz", "DE", "De", "deu", "é", "d ", "d_", "1a", "a{"] {
        assert_eq!(Language::from_639_1(code), None, "{:?}", code);
    }
    assert!(Language::from_639_1("…").is_none());
    assert!(Language::from_639_3("…").is_none());
}

#[test]
fn every_pair_of_letters_is_looked_up_as_the_table_says() {
    let all = languages();
    for a in b'a'..=b'z' {
        for b in b'a'..=b'z' {
            let code = String::from_utf8(vec![a, b]).unwrap();
            let expected = all.iter().copied().find(|l| l.to_639_1() == Some(code.as_str()));
            assert_eq!(Language::from_639_1(&code), expected);
            assert_eq!(Language::hashed_639_1(&code), expected);
        }
    }
}

#[test]
fn three_letters_near_a_code_are_looked_up_as_the_table_says() {
    let all = languages();
    for language in &all {
        let code = language.to_639_3().as_bytes();
        for last in b'a'..=b'z' {
            let near = String::from_utf8(vec![code[0], code[1], last]).unwrap();
            let expected = all.iter().copied().find(|l| l.to_639_3() == near);
            assert_eq!(Language::from_639_3(&near), expected);
            assert_eq!(Language::hashed_639_3(&near), expected);
        }
    }
}

#[test]
fn a_place_leads_to_its_language_and_back() {
    let all = languages();
    assert_eq!(all.len(), 238);
    for (place, language) in all.iter().enumerate() {
        assert_eq!(language.to_usize(), place);
        assert_eq!(Language::from_usize(place), Some(*language));
    }
    assert_eq!(Language::from_usize(238), None);
    assert_eq!(Language::from_usize(usize::MAX), None);
    assert_eq!(Language::from_usize(0), Some(Language::Aar));
}

#[test]
fn locales_name_the_language_before_the_first_underscore() {
    assert_eq!(Language::from_locale("de_DE.UTF-8"), Language::from_639_3("deu"));
    assert_eq!(Language::from_locale("en_GB.UTF-8"), Language::from_639_3("eng"));
    assert_eq!(Language::from_locale("de_"), Some(Language::Deu));
    assert_eq!(Language::from_locale("de__"), Some(Language::Deu));
    assert_eq!(Language::from_locale("de_é"), Some(Language::Deu));
    assert_eq!(Language::from_locale("fr_CA_extra"), Some(Language::Fra));
}

#[test]
fn other_locales_name_no_language() {
    for locale in [
        "", "d", "de", "_", "__", "___", "foo", "deu", "_de", "d_e", "de-DE", "deu_DE", "DE_de",
        "xx_XX", "éé", "é_a", "dé_", "de DE", "dede_", "a_b_c",
    ] {
        assert_eq!(Language::from_locale(locale), None, "{:?}", locale);
    }
}

#[test]
fn languages_compare_as_their_places_do() {
    let all = languages();
    for pair in all.windows(2) {
        assert!(pair[0] < pair[1]);
        assert!(pair[0] <= pair[1]);
        assert!(pair[1] > pair[0]);
        assert!(pair[0] != pair[1]);
        assert_eq!(pair[0].partial_cmp(&pair[1]), Some(std::cmp::Ordering::Less));
        assert_eq!(pair[0].cmp(&pair[1]), std::cmp::Ordering::Less);
        assert_eq!(pair[0].partial_cmp(&pair[0]), Some(std::cmp::Ordering::Equal));
    }
    let mut sorted = vec![Language::Fra, Language::Zul, Language::Deu, Language::Aar];
    sorted.sort();
    assert_eq!(sorted, [Language::Aar, Language::Deu, Language::Fra, Language::Zul]);
}

#[test]
fn the_default_is_the_undetermined_language() {
    let language = Language::default();
    assert_eq!(language, Language::Und);
    assert_eq!(language.to_639_3(), "und");
    assert_eq!(language.to_name(), "Undetermined");
    assert_eq!(Language::default(), Language::default());
}

#[test]
fn an_answer_is_kept_only_where_the_table_confirms_it() {
    assert_eq!(Language::confirm_639_3(Some(Language::Deu), "deu"), Some(Language::Deu));
    assert_eq!(Language::confirm_639_3(Some(Language::Fra), "deu"), None);
    assert_eq!(Language::confirm_639_3(Some(Language::Deu), "de"), None);
    assert_eq!(Language::confirm_639_3(None, "deu"), None);
    assert_eq!(Language::confirm_639_1(Some(Language::Deu), "de"), Some(Language::Deu));
    assert_eq!(Language::confirm_639_1(Some(Language::Fra), "de"), None);
    assert_eq!(Language::confirm_639_1(Some(Language::Und), ""), None);
    assert_eq!(Language::confirm_639_1(Some(Language::Deu), "deu"), None);
    assert_eq!(Language::confirm_639_1(None, "de"), None);
}
