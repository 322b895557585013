//! Lookup of a language by its code.
//!
//! A code is first looked up with the perfect hash of its reverse index. The
//! answer of the hash is kept only if the record it points to holds the code.
//! Where the hash gives no such answer, the table itself decides: the
//! three-letter codes stand in order and are searched by halving; the
//! two-letter codes have a slot each.

use vstd::prelude::*;
use vstd::string::{StrSliceExecFns, StringSliceAdditionalSpecFns};
use vstd::utf8::{encode_utf8, is_ascii_chars, is_ascii_chars_encode_utf8};
use crate::facts::order::lemma_languages_in_order;
use crate::facts::three_letter::lemma_three_letter_codes;
use crate::facts::two_letter::lemma_two_letter_codes;
use crate::overview::{
    code_1_at, code_3_at, language, language_at, record, two_letter_slot_at,
    two_letter_slot_value,
};
use crate::search::{first_match, lemma_first_match_none, lemma_first_match_only};
use crate::table::{Language, LANGUAGE_COUNT};
use crate::text::{
    all_lower_letters, byte_len, code_key, lemma_code_key_injective, lemma_lower_letters_ascii,
    str_eq, three_letter_key, two_letter_slot,
};

verus! {

/// Languages with the three-letter code `code`.
pub open spec fn has_code_3(code: Seq<char>) -> spec_fn(Language) -> bool {
    |l: Language| l.code_3() == code
}

/// Languages with the two-letter code `code`.
pub open spec fn has_code_1(code: Seq<char>) -> spec_fn(Language) -> bool {
    |l: Language| l.code_1() == Some(code)
}

/// The part of a locale that names its language: what stands before the
/// first `_`, or all of it where it holds no `_`.
pub open spec fn language_tag(locale: Seq<char>) -> Seq<char>
    decreases locale.len(),
{
    if locale.len() == 0 || locale[0] == '_' {
        Seq::empty()
    } else {
        seq![locale[0]] + language_tag(locale.drop_first())
    }
}

/// The three-letter codes grow with the place in the table.
pub proof fn lemma_codes_increase(i: int, j: int)
    requires
        0 <= i < j < LANGUAGE_COUNT,
    ensures
        code_key(code_3_at(i)) < code_key(code_3_at(j)),
    decreases j - i,
{
    lemma_three_letter_codes();
    if i + 1 < j {
        lemma_codes_increase(i, j - 1);
    }
}

impl Language {
    /// The language with the three-letter code `code`.
    pub open spec fn find_code_3(code: Seq<char>) -> Option<Language> {
        first_match(has_code_3(code))
    }

    /// The language with the two-letter code `code`.
    pub open spec fn find_code_1(code: Seq<char>) -> Option<Language> {
        first_match(has_code_1(code))
    }

    /// The language that a locale names: the one whose two-letter code
    /// stands before the first `_` of the locale. A locale of less than
    /// three bytes names none.
    pub open spec fn find_locale(locale: Seq<char>) -> Option<Language> {
        if encode_utf8(locale).len() < 3 {
            None
        } else {
            Language::find_code_1(language_tag(locale))
        }
    }

    /// A two-letter code is two letters `a` to `z`, and its slot holds the
    /// place of its language.
    pub proof fn lemma_code_1_letters(self)
        ensures
            self.code_1() matches Some(code) ==> {
                &&& code.len() == 2
                &&& all_lower_letters(code)
                &&& two_letter_slot_at(two_letter_slot(code)) == self.index() + 1
            },
    {
        lemma_two_letter_codes();
        self.lemma_index();
        assert(code_1_at(self as int).len() == 0 || code_1_at(self as int).len() == 2);
    }

    /// No two languages have the same two-letter code.
    pub proof fn lemma_code_1_unique(self, other: Language)
        requires
            self.code_1() is Some,
            self.code_1() == other.code_1(),
        ensures
            self == other,
    {
        self.lemma_code_1_letters();
        other.lemma_code_1_letters();
    }

    /// The two-letter code of a language leads back to that language, and
    /// to no other.
    pub proof fn lemma_find_code_1(self)
        ensures
            self.code_1() matches Some(code) ==> Language::find_code_1(code) == Some(self),
    {
        if let Some(code) = self.code_1() {
            let p = has_code_1(code);
            assert forall|k: Language| #[trigger] p(k) implies k == self by {
                k.lemma_code_1_unique(self);
            }
            lemma_first_match_only(p, self);
        }
    }

    /// A three-letter code is three letters `a` to `z`.
    pub proof fn lemma_code_3_letters(self)
        ensures
            self.code_3().len() == 3,
            all_lower_letters(self.code_3()),
    {
        lemma_three_letter_codes();
        self.lemma_index();
        assert(code_3_at(self as int).len() == 3);
    }

    /// No two languages have the same three-letter code.
    pub proof fn lemma_code_3_unique(self, other: Language)
        requires
            self.code_3() == other.code_3(),
        ensures
            self == other,
    {
        self.lemma_index();
        other.lemma_index();
        if self.index() < other.index() {
            lemma_codes_increase(self as int, other as int);
        } else if other.index() < self.index() {
            lemma_codes_increase(other as int, self as int);
        }
    }

    /// The three-letter code of a language leads back to that language, and
    /// to no other.
    pub proof fn lemma_find_code_3(self)
        ensures
            Language::find_code_3(self.code_3()) == Some(self),
    {
        let p = has_code_3(self.code_3());
        assert forall|k: Language| #[trigger] p(k) implies k == self by {
            k.lemma_code_3_unique(self);
        }
        lemma_first_match_only(p, self);
    }

    /// The language with the three-letter code `code`, found by halving the
    /// table.
    fn search_639_3(code: &str) -> (r: Option<Language>)
        requires
            is_ascii_chars(code@),
            code@.len() == 3,
        ensures
            r == Language::find_code_3(code@),
    {
        let key = three_letter_key(code);
        let mut low: usize = 0;
        let mut high: usize = LANGUAGE_COUNT;
        while low < high
            invariant
                low <= high <= LANGUAGE_COUNT,
                is_ascii_chars(code@),
                code@.len() == 3,
                key == code_key(code@),
                forall|i: int| 0 <= i < low ==> code_key(#[trigger] code_3_at(i)) < key,
                forall|i: int|
                    high <= i < LANGUAGE_COUNT ==> key < code_key(#[trigger] code_3_at(i)),
            decreases high - low,
        {
            let mid = low + (high - low) / 2;
            proof {
                lemma_code_3_at(mid as int);
            }
            let here = three_letter_key(record(mid).code_3);
            if here == key {
                proof {
                    lemma_found_code_3(mid as int, code@);
                }
                return Some(language(mid));
            } else if here < key {
                proof {
                    lemma_codes_up_to(mid as int, key as int);
                }
                low = mid + 1;
            } else {
                proof {
                    lemma_codes_from(mid as int, key as int);
                }
                high = mid;
            }
        }
        proof {
            lemma_absent_code_3(code@);
        }
        None
    }

    /// The language with the three-letter code `code`, or `None` if no
    /// language has that code.
    pub fn from_639_3(code: &str) -> (r: Option<Language>)
        ensures
            r == Language::find_code_3(code@),
    {
        if byte_len(code) != 3 {
            proof {
                lemma_code_3_is_three_bytes(code@);
            }
            return None;
        }
        match Language::hashed_639_3(code) {
            Some(l) => {
                proof {
                    l.lemma_find_code_3();
                }
                return Some(l);
            },
            None => {},
        }
        if !code.is_ascii() {
            proof {
                lemma_code_3_is_three_bytes(code@);
            }
            return None;
        }
        proof {
            is_ascii_chars_encode_utf8(code@);
        }
        Language::search_639_3(code)
    }
}

impl Language {
    /// The language with the two-letter code `code`, found in the slot of
    /// the code.
    fn slot_639_1(code: &str) -> (r: Option<Language>)
        requires
            is_ascii_chars(code@),
            code@.len() == 2,
        ensures
            r == Language::find_code_1(code@),
    {
        let a = code.get_ascii(0);
        let b = code.get_ascii(1);
        proof {
            assert('\0' <= code@[0] <= '\u{7f}' && '\0' <= code@[1] <= '\u{7f}');
        }
        if a < 97 || a > 122 || b < 97 || b > 122 {
            proof {
                lemma_absent_code_1(code@);
            }
            return None;
        }
        let slot = (a - 97) as usize * 26 + (b - 97) as usize;
        let value = two_letter_slot_value(slot);
        if value == 0 || value as usize > LANGUAGE_COUNT {
            proof {
                lemma_absent_code_1(code@);
            }
            return None;
        }
        let place = (value - 1) as usize;
        if str_eq(record(place).code_1, code) {
            proof {
                lemma_languages_in_order();
                language_at(place as int).lemma_find_code_1();
            }
            Some(language(place))
        } else {
            proof {
                lemma_absent_code_1(code@);
            }
            None
        }
    }

    /// The language with the two-letter code `code`, or `None` if no
    /// language has that code.
    pub fn from_639_1(code: &str) -> (r: Option<Language>)
        ensures
            r == Language::find_code_1(code@),
    {
        if byte_len(code) != 2 {
            proof {
                lemma_code_1_is_two_bytes(code@);
            }
            return None;
        }
        match Language::hashed_639_1(code) {
            Some(l) => {
                proof {
                    l.lemma_find_code_1();
                }
                return Some(l);
            },
            None => {},
        }
        if !code.is_ascii() {
            proof {
                lemma_code_1_is_two_bytes(code@);
            }
            return None;
        }
        proof {
            is_ascii_chars_encode_utf8(code@);
        }
        Language::slot_639_1(code)
    }
}

impl Language {
    /// The language of a locale such as `de_DE.UTF-8`: the one whose
    /// two-letter code stands before the first `_`. A locale of less than
    /// three bytes, or with anything else before the first `_`, gives `None`.
    pub fn from_locale(locale: &str) -> (r: Option<Language>)
        ensures
            r == Language::find_locale(locale@),
    {
        if byte_len(locale) < 3 {
            return None;
        }
        let mut chars = locale.chars();
        let first = chars.next();
        let second = chars.next();
        let third = chars.next();
        match (first, second, third) {
            (Some(a), Some(b), Some(c)) => {
                if a != '_' && b != '_' && c == '_' {
                    proof {
                        lemma_language_tag_of_two(locale@);
                    }
                    return Language::from_639_1(locale.substring_char(0, 2));
                }
            },
            _ => {},
        }
        proof {
            lemma_language_tag_not_two(locale@);
        }
        None
    }
}

/// A locale of less than three characters names no language.
pub proof fn lemma_short_locale(locale: Seq<char>)
    requires
        locale.len() < 3,
    ensures
        Language::find_locale(locale) is None,
{
    if encode_utf8(locale).len() >= 3 {
        lemma_language_tag_not_two(locale);
    }
}

/// A locale with `_` as its third character, and not before, has its first
/// two characters as its language tag.
proof fn lemma_language_tag_of_two(locale: Seq<char>)
    requires
        locale.len() >= 3,
        locale[0] != '_',
        locale[1] != '_',
        locale[2] == '_',
    ensures
        language_tag(locale) == locale.subrange(0, 2),
{
    let rest = locale.drop_first();
    let last = rest.drop_first();
    assert(language_tag(last) == Seq::<char>::empty());
    assert(language_tag(rest) == seq![rest[0]] + language_tag(last));
    assert(language_tag(locale) =~= locale.subrange(0, 2));
}

/// The language tag of a locale is as long as the locale has characters
/// before its first `_`.
proof fn lemma_language_tag_len(locale: Seq<char>)
    ensures
        language_tag(locale).len() <= locale.len(),
        language_tag(locale).len() < locale.len() ==> locale[language_tag(locale).len() as int]
            == '_',
        language_tag(locale) == locale.subrange(0, language_tag(locale).len() as int),
        forall|i: int| 0 <= i < language_tag(locale).len() ==> locale[i] != '_',
    decreases locale.len(),
{
    if locale.len() == 0 || locale[0] == '_' {
        assert(language_tag(locale) =~= locale.subrange(0, 0));
    } else {
        let rest = locale.drop_first();
        lemma_language_tag_len(rest);
        let n = language_tag(rest).len() as int;
        assert(language_tag(locale) =~= locale.subrange(0, n + 1));
        assert forall|i: int| 0 <= i < n + 1 implies locale[i] != '_' by {
            if i > 0 {
                assert(locale[i] == rest[i - 1]);
            }
        }
    }
}

/// A locale of three bytes or more names no language unless its third
/// character is its first `_`.
proof fn lemma_language_tag_not_two(locale: Seq<char>)
    requires
        encode_utf8(locale).len() >= 3,
        !(locale.len() >= 3 && locale[0] != '_' && locale[1] != '_' && locale[2] == '_'),
    ensures
        Language::find_code_1(language_tag(locale)) is None,
{
    let tag = language_tag(locale);
    lemma_language_tag_len(locale);
    let p = has_code_1(tag);
    assert forall|k: Language| !#[trigger] p(k) by {
        k.lemma_code_1_letters();
        if k.code_1() == Some(tag) {
            assert(tag.len() == 2);
            assert(locale.len() == 2);
            assert(tag =~= locale);
            lemma_lower_letters_ascii(locale);
        }
    }
    lemma_first_match_none(p);
}

/// A code is the code of no language where it is not two letters `a` to `z`,
/// or its slot does not hold the place of a record with that code.
proof fn lemma_absent_code_1(code: Seq<char>)
    requires
        code.len() == 2,
        !all_lower_letters(code) || two_letter_slot_at(two_letter_slot(code)) <= 0
            || two_letter_slot_at(two_letter_slot(code)) > LANGUAGE_COUNT || code_1_at(
            two_letter_slot_at(two_letter_slot(code)) - 1,
        ) != code,
    ensures
        Language::find_code_1(code) is None,
{
    let p = has_code_1(code);
    assert forall|k: Language| !#[trigger] p(k) by {
        k.lemma_code_1_letters();
        k.lemma_index();
    }
    lemma_first_match_none(p);
}

/// A string that does not take two bytes, or is not ASCII, is the code of no
/// language.
proof fn lemma_code_1_is_two_bytes(code: Seq<char>)
    requires
        encode_utf8(code).len() != 2 || !is_ascii_chars(code),
    ensures
        Language::find_code_1(code) is None,
{
    let p = has_code_1(code);
    assert forall|k: Language| !#[trigger] p(k) by {
        k.lemma_code_1_letters();
        if k.code_1() == Some(code) {
            lemma_lower_letters_ascii(code);
        }
    }
    lemma_first_match_none(p);
}

/// The three-letter code at each place is three ASCII letters.
proof fn lemma_code_3_at(i: int)
    requires
        0 <= i < LANGUAGE_COUNT,
    ensures
        code_3_at(i).len() == 3,
        is_ascii_chars(code_3_at(i)),
{
    lemma_three_letter_codes();
    lemma_lower_letters_ascii(code_3_at(i));
}

/// Where the code at `mid` is below `key`, so are all codes before it.
proof fn lemma_codes_up_to(mid: int, key: int)
    requires
        0 <= mid < LANGUAGE_COUNT,
        code_key(code_3_at(mid)) < key,
    ensures
        forall|i: int| 0 <= i < mid + 1 ==> code_key(#[trigger] code_3_at(i)) < key,
{
    assert forall|i: int| 0 <= i < mid + 1 implies code_key(#[trigger] code_3_at(i)) < key by {
        if i < mid {
            lemma_codes_increase(i, mid);
        }
    }
}

/// Where the code at `mid` is above `key`, so are all codes after it.
proof fn lemma_codes_from(mid: int, key: int)
    requires
        0 <= mid < LANGUAGE_COUNT,
        key < code_key(code_3_at(mid)),
    ensures
        forall|i: int| mid <= i < LANGUAGE_COUNT ==> key < code_key(#[trigger] code_3_at(i)),
{
    assert forall|i: int| mid <= i < LANGUAGE_COUNT implies key < code_key(
        #[trigger] code_3_at(i),
    ) by {
        if mid < i {
            lemma_codes_increase(mid, i);
        }
    }
}

/// The record whose code has the key of `code` is the record of `code`.
proof fn lemma_found_code_3(mid: int, code: Seq<char>)
    requires
        0 <= mid < LANGUAGE_COUNT,
        code.len() == 3,
        is_ascii_chars(code),
        code_key(code_3_at(mid)) == code_key(code),
    ensures
        Language::find_code_3(code) == Some(language_at(mid)),
{
    lemma_code_3_at(mid);
    lemma_languages_in_order();
    lemma_code_key_injective(code_3_at(mid), code);
    language_at(mid).lemma_find_code_3();
}

/// A code whose key is the key of no record is the code of no language.
proof fn lemma_absent_code_3(code: Seq<char>)
    requires
        forall|i: int| 0 <= i < LANGUAGE_COUNT ==> code_key(#[trigger] code_3_at(i)) != code_key(
            code,
        ),
    ensures
        Language::find_code_3(code) is None,
{
    let p = has_code_3(code);
    assert forall|k: Language| !#[trigger] p(k) by {
        k.lemma_index();
        assert(code_key(code_3_at(k as int)) != code_key(code));
    }
    lemma_first_match_none(p);
}

/// A string that does not take three bytes, or is not ASCII, is the code of
/// no language.
proof fn lemma_code_3_is_three_bytes(code: Seq<char>)
    requires
        encode_utf8(code).len() != 3 || !is_ascii_chars(code),
    ensures
        Language::find_code_3(code) is None,
{
    let p = has_code_3(code);
    assert forall|k: Language| !#[trigger] p(k) by {
        k.lemma_code_3_letters();
        lemma_lower_letters_ascii(k.code_3());
    }
    lemma_first_match_none(p);
}

} // verus!
