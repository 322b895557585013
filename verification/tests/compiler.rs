use isolang::compiler::checks::TableError;
use isolang::compiler::hashing::place_owners;
use isolang::compiler::names::{kept_length, split_name, trim_end};
use isolang::compiler::records::{find_autonym, read_autonyms_table, read_iso_table};
use isolang::compiler::rows::{fields, lines};
use isolang::compiler::proofs::{write_letters, write_order};
use isolang::compiler::variants::{title, with_capital};
use isolang::compiler::writing::{write_decimal, write_literal};
use isolang::compiler::{compile, generate, CompileError};

const ISO: &str = "Id\tPart2B\tPart2T\tPart1\tScope\tLanguage_Type\tRef_Name\tComment\n\
aar\taar\taar\taa\tI\tL\tAfar\t\n\
deu\tger\tdeu\tde\tI\tL\tGerman\t\n\
ell\tgre\tell\tel\tI\tL\tModern Greek (1453-)\t\n\
gha\t\t\t\tI\tL\tGhadamès\t\n\
swa\tswa\tswa\tsw\tM\tL\tSwahili (macrolanguage)\t\n";

const AUTONYMS: &str = "code\tpart1\tname\tautonym\n\
aar\taa\tAfar\tAfaraf\n\
deu\tde\tGerman\tDeutsch\n\
ell\tel\tGreek\tελληνικά\n\
swa\tsw\tSwahili\t\n";

#[test]
fn lines_are_those_of_std() {
    for text in [
        "",
        "\n",
        "a",
        "a\n",
        "a\nb",
        "a\r\nb\r\n",
        "a\rb",
        "a\r",
        "\r\n",
        "\n\n",
        "ä\nö\r\n\r\nü",
        ISO,
        AUTONYMS,
    ] {
        let expected: Vec<&str> = text.lines().collect();
        assert_eq!(lines(text), expected);
    }
}

#[test]
fn fields_are_those_of_a_split_at_tabs() {
    for line in ["", "a", "\t", "a\t", "\ta", "a\tb\tc", "a\t\tb", "ä\tö\t\tü\t"] {
        let expected: Vec<&str> = line.split('\t').collect();
        assert_eq!(fields(line), expected);
    }
}

#[test]
fn trim_end_is_that_of_std() {
    for s in ["", " ", "a", "a ", "a  ", " a", "a b \t", "ä\u{a0}", "a\u{3000}\n", "  \u{2003}"] {
        assert_eq!(trim_end(s), s.trim_end());
    }
}

#[test]
fn a_single_remark_is_cut_off() {
    assert_eq!(split_name("Modern Greek (1453-)"), ("Modern Greek", Some("1453-)")));
    assert_eq!(
        split_name("Swahili (macrolanguage)"),
        ("Swahili", Some("macrolanguage)"))
    );
    assert_eq!(split_name("Old English  (ca. 450-1100)"), ("Old English", Some("ca. 450-1100)")));
    assert_eq!(split_name(" (x)"), ("", Some("x)")));
    assert_eq!(split_name("a ("), ("a", Some("")));
}

#[test]
fn a_name_without_a_single_remark_is_kept() {
    assert_eq!(split_name("German"), ("German", None));
    assert_eq!(split_name(""), ("", None));
    assert_eq!(split_name("Tonga (Nyasa) (Malawi)"), ("Tonga (Nyasa) (Malawi)", None));
    assert_eq!(split_name("Name(remark)"), ("Name(remark)", None));
    assert_eq!(split_name("Name ( ("), ("Name ( (", None));
    assert_eq!(split_name("trailing "), ("trailing ", None));
}

#[test]
fn title_puts_a_capital_first() {
    assert_eq!(title("deu"), "Deu");
    assert_eq!(title("x"), "X");
    assert_eq!(title(""), "");
    assert_eq!(title("ßa"), "SSa");
    assert_eq!(title("Abc"), "Abc");
}

#[test]
fn autonyms_are_read_row_by_row() {
    let autonyms = read_autonyms_table(AUTONYMS);
    assert_eq!(autonyms.len(), 4);
    assert_eq!(autonyms[0].code_3, "aar");
    assert_eq!(autonyms[0].autonym, Some("Afaraf"));
    assert_eq!(autonyms[2].autonym, Some("ελληνικά"));
    assert_eq!(autonyms[3].code_3, "swa");
    assert_eq!(autonyms[3].autonym, None);
    assert_eq!(find_autonym(&autonyms, "deu"), Some("Deutsch"));
    assert_eq!(find_autonym(&autonyms, "swa"), None);
    assert_eq!(find_autonym(&autonyms, "gha"), None);
}

#[test]
fn the_last_row_of_a_code_gives_its_autonym() {
    let autonyms = read_autonyms_table("header\ndeu\t\t\tDeutsch\ndeu\t\t\tdeutsch\nfra\t\t\n");
    assert_eq!(autonyms.len(), 3);
    assert_eq!(find_autonym(&autonyms, "deu"), Some("deutsch"));
    assert_eq!(find_autonym(&autonyms, "fra"), None);
    assert!(read_autonyms_table("").is_empty());
    assert!(read_autonyms_table("header only").is_empty());
}

#[test]
fn records_join_the_registry_with_the_autonyms() {
    let records = read_iso_table(ISO, AUTONYMS).unwrap();
    assert_eq!(records.len(), 5);
    assert_eq!(records[1].code_3, "deu");
    assert_eq!(records[1].code_1, Some("de"));
    assert_eq!(records[1].name_en, "German");
    assert_eq!(records[1].autonym, Some("Deutsch"));
    assert_eq!(records[2].name_en, "Modern Greek");
    assert_eq!(records[2].autonym, Some("ελληνικά"));
    assert_eq!(records[3].code_3, "gha");
    assert_eq!(records[3].code_1, None);
    assert_eq!(records[3].name_en, "Ghadamès");
    assert_eq!(records[3].autonym, None);
    assert_eq!(records[4].name_en, "Swahili");
    assert_eq!(records[4].autonym, None);
}

#[test]
fn a_two_letter_field_of_another_length_is_no_code() {
    let records =
        read_iso_table("h\nabc\t\t\td\t\t\tName\nabd\t\t\tdef\t\t\tName\nabe\t\t\tää\t\t\tName", "")
            .unwrap();
    assert_eq!(records[0].code_1, None);
    assert_eq!(records[1].code_1, None);
    assert_eq!(records[2].code_1, None);
}

#[test]
fn a_row_without_a_name_field_is_reported() {
    let err = read_iso_table("h\naar\t\t\taa\t\t\tAfar\nabk\tab\n", "").unwrap_err();
    assert_eq!(err.row, 1);
    assert_eq!(
        compile("h\n\n", "").err(),
        Some(CompileError::MissingColumn { row: 0 })
    );
}

#[test]
fn the_table_is_compiled_with_its_indexes() {
    let table = compile(ISO, AUTONYMS).unwrap();
    assert_eq!(table.records.len(), 5);
    assert_eq!(table.variants, ["Aar", "Deu", "Ell", "Gha", "Swa"]);
    assert_eq!(table.two_letter_slots.len(), 676);
    assert_eq!(table.two_letter_slots[0], 1);
    assert_eq!(table.two_letter_slots[3 * 26 + 4], 2);
    assert_eq!(table.two_letter_slots[4 * 26 + 11], 3);
    assert_eq!(table.two_letter_slots[18 * 26 + 22], 5);
    assert_eq!(table.two_letter_slots.iter().filter(|s| **s != 0).count(), 4);
    let mut threes = table.three_to_three.entries.clone();
    threes.sort();
    assert_eq!(threes, [0, 1, 2, 3, 4]);
    let mut twos = table.two_to_three.entries.clone();
    twos.sort();
    assert_eq!(twos, [0, 1, 2, 4]);
    assert_eq!(table.three_to_three.disps.len(), 1);
}

#[test]
fn the_compiled_indexes_find_every_code() {
    let table = compile(ISO, AUTONYMS).unwrap();
    let leak = |index: &isolang::compiler::hashing::HashIndex, codes: Vec<&'static str>| {
        let entries: Vec<(&'static str, usize)> =
            index.entries.iter().map(|&place| (codes[place], place)).collect();
        phf::Map {
            key: index.key,
            disps: Vec::leak(index.disps.clone()),
            entries: Vec::leak(entries),
        }
    };
    let threes = leak(&table.three_to_three, vec!["aar", "deu", "ell", "gha", "swa"]);
    for (place, code) in ["aar", "deu", "ell", "gha", "swa"].iter().enumerate() {
        assert_eq!(threes.get(*code), Some(&place));
    }
    assert_eq!(threes.get("fra"), None);
    let twos = leak(&table.two_to_three, vec!["aa", "de", "el", "", "sw"]);
    for (place, code) in [(0, "aa"), (1, "de"), (2, "el"), (4, "sw")] {
        assert_eq!(twos.get(code), Some(&place));
    }
    assert_eq!(twos.get("fr"), None);
}

#[test]
fn names_in_lower_case_are_compiled() {
    let table = compile(ISO, AUTONYMS).unwrap();
    assert_eq!(
        table.lowercase_names,
        ["afar", "german", "modern greek", "ghadamès", "swahili"]
    );
}

#[test]
fn faults_of_the_records_are_reported() {
    let row = |code_3: &str, code_1: &str, name: &str| {
        format!("{}\t\t\t{}\t\t\t{}\n", code_3, code_1, name)
    };
    let table = |rows: &[String]| format!("header\n{}", rows.concat());
    let check = |rows: &[String]| match compile(&table(rows), "") {
        Ok(_) => None,
        Err(e) => Some(e),
    };
    assert_eq!(check(&[row("aar", "aa", "Afar"), row("abk", "ab", "Abkhazian")]), None);
    assert_eq!(check(&[]), None);
    assert_eq!(
        check(&[row("aar", "aa", "Afar"), row("Abk", "ab", "Abkhazian")]),
        Some(CompileError::Table(TableError::BadCode3 { row: 1 }))
    );
    assert_eq!(
        check(&[row("aa", "", "Afar")]),
        Some(CompileError::Table(TableError::BadCode3 { row: 0 }))
    );
    assert_eq!(
        check(&[row("abk", "", "Abkhazian"), row("aar", "", "Afar")]),
        Some(CompileError::Table(TableError::OutOfOrder { row: 1 }))
    );
    assert_eq!(
        check(&[row("aar", "", "Afar"), row("aar", "", "Afar")]),
        Some(CompileError::Table(TableError::OutOfOrder { row: 1 }))
    );
    assert_eq!(
        check(&[row("aar", "a1", "Afar")]),
        Some(CompileError::Table(TableError::BadCode1 { row: 0 }))
    );
    assert_eq!(
        check(&[row("aar", "aa", "Afar"), row("abk", "ab", "A"), row("afr", "aa", "B")]),
        Some(CompileError::Table(TableError::DuplicateCode1 { row: 2 }))
    );
    assert_eq!(
        check(&[row("aar", "aa", "")]),
        Some(CompileError::Table(TableError::EmptyName { row: 0 }))
    );
}

#[test]
fn too_many_records_are_reported() {
    let mut iso = String::from("header\n");
    for _ in 0..65535 {
        iso.push_str("aar\t\t\t\t\t\tAfar\n");
    }
    assert_eq!(
        compile(&iso, "").err(),
        Some(CompileError::Table(TableError::TooManyRecords))
    );
}

#[test]
fn numbers_are_written_in_decimal() {
    for n in [0u64, 1, 9, 10, 11, 99, 100, 238, 676, 65535, 12913932095322966823, u64::MAX] {
        assert_eq!(write_decimal(n), n.to_string());
    }
}

#[test]
fn literals_are_written_with_their_escapes() {
    assert_eq!(write_literal(""), "\"\"");
    assert_eq!(write_literal("deu"), "\"deu\"");
    assert_eq!(write_literal("Avañe'ẽ"), "\"Avañe'ẽ\"");
    assert_eq!(write_literal("a\"b"), "\"a\\\"b\"");
    assert_eq!(write_literal("a\\b"), "\"a\\\\b\"");
    assert_eq!(write_literal("\\\""), "\"\\\\\\\"\"");
}

#[test]
fn letters_are_written_as_elements() {
    assert_eq!(write_letters(""), "");
    assert_eq!(write_letters("a"), "'a'");
    assert_eq!(write_letters("de"), "'d', 'e'");
    assert_eq!(write_letters("deu"), "'d', 'e', 'u'");
}

#[test]
fn the_order_of_the_languages_is_written_in_chunks() {
    let none = write_order(0);
    assert!(!none.contains("lemma_languages_in_order_from_"));
    let one = write_order(34);
    assert!(one.contains("        0 <= i < 34,\n"));
    assert!(!one.contains("lemma_languages_in_order_from_34"));
    let two = write_order(35);
    assert!(two.contains("        0 <= i < 34,\n"));
    assert!(two.contains("        34 <= i < 35,\n"));
    assert!(two.contains("        if 34 <= i < 35 {\n            lemma_languages_in_order_from_34(i);\n        }\n"));
    assert!(!two.contains("lemma_languages_in_order_from_68"));
}

#[test]
fn the_sources_of_a_small_table_are_written() {
    let (table, sources) = generate(ISO, AUTONYMS).unwrap();
    assert_eq!(table.records.len(), 5);
    assert!(sources.table.starts_with("//! The overview table: one record per language"));
    assert!(sources.table.contains("pub enum Language {\n    Aar,\n    Deu,\n    Ell,\n    Gha,\n    Swa,\n}\n"));
    assert!(sources.table.contains("pub const LANGUAGE_COUNT: usize = 5;\n"));
    assert!(sources.table.contains(
        "    (\"ell\", \"el\", \"Modern Greek\", \"modern greek\", \"ελληνικά\"),\n"
    ));
    assert!(sources.table.contains("    (\"gha\", \"\", \"Ghadamès\", \"ghadamès\", \"\"),\n"));
    assert!(sources.table.contains("pub const LANGUAGES: [Language; 5] = [\n    Language::Aar,\n"));
    assert!(sources.table.contains("pub const TWO_TO_THREE: [(&'static str, Language); 4] = [\n"));
    assert!(sources.table.contains("pub const THREE_TO_THREE: [(&'static str, Language); 5] = [\n"));
    assert!(sources.table.contains("pub const THREE_TO_THREE_DISPS: [(u32, u32); 1] = [\n"));
    assert!(sources.table.contains("    (\"de\", Language::Deu),\n"));
    assert!(sources.table.contains("    (\"gha\", Language::Gha),\n"));
    assert!(sources.table.contains("= [\n    1, 0, 0, 0,"));
    assert!(sources.table.ends_with("0, 0, 0,\n];\n\n} // verus!\n"));
    assert!(sources.three_letter.contains(
        "    reveal_strlit(\"deu\");\n    assert(code_3_at(1) =~= seq!['d', 'e', 'u']);\n"
    ));
    assert!(sources.two_letter.contains(
        "    reveal_strlit(\"sw\");\n    assert(code_1_at(4) =~= seq!['s', 'w']);\n"
    ));
    assert!(!sources.two_letter.contains("code_1_at(3)"));
    assert!(sources.names.contains(
        "    reveal_strlit(\"Ghadamès\");\n    assert(name_at(3).len() == 8);\n"
    ));
    assert_eq!(sources.order, write_order(5));
}

#[test]
fn white_space_at_the_end_is_counted_off() {
    assert_eq!(kept_length(&vec![]), 0);
    assert_eq!(kept_length(&vec![false]), 1);
    assert_eq!(kept_length(&vec![true]), 0);
    assert_eq!(kept_length(&vec![true, true]), 0);
    assert_eq!(kept_length(&vec![false, true, true]), 1);
    assert_eq!(kept_length(&vec![true, false, true]), 2);
    assert_eq!(kept_length(&vec![true, false, false]), 3);
}

#[test]
fn a_capital_takes_the_place_of_the_first_character() {
    assert_eq!(with_capital(String::from("D"), "deu"), "Deu");
    assert_eq!(with_capital(String::from("SS"), "ßa"), "SSa");
    assert_eq!(with_capital(String::new(), "x"), "");
}

#[test]
fn owners_are_placed_where_their_codes_hash_to() {
    assert_eq!(place_owners(&vec![2, 0, 1], &vec![10, 20, 30]), [30, 10, 20]);
    assert_eq!(place_owners(&vec![], &vec![1]), []);
    assert_eq!(place_owners(&vec![0, 0], &vec![7]), [7, 7]);
}
