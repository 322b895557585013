//! Access to the overview table.
//!
//! The rest of the crate reads the table through the functions of this
//! module, and reasons about it through the specification functions that
//! name a field of a record by the record's place.

use vstd::prelude::*;
use crate::table::{Language, LANGUAGES, LANGUAGE_COUNT, OVERVIEW, TWO_LETTER_SLOTS};

verus! {

/// The three-letter code of the record at place `i`.
#[verifier::opaque]
pub open spec fn code_3_at(i: int) -> Seq<char> {
    OVERVIEW[i].0@
}

/// The two-letter code of the record at place `i`; empty if it has none.
#[verifier::opaque]
pub open spec fn code_1_at(i: int) -> Seq<char> {
    OVERVIEW[i].1@
}

/// The English name of the record at place `i`.
#[verifier::opaque]
pub open spec fn name_at(i: int) -> Seq<char> {
    OVERVIEW[i].2@
}

/// The English name, in lower case, of the record at place `i`.
#[verifier::opaque]
pub open spec fn name_lowercase_at(i: int) -> Seq<char> {
    OVERVIEW[i].3@
}

/// The autonym of the record at place `i`; empty if it has none.
#[verifier::opaque]
pub open spec fn autonym_at(i: int) -> Seq<char> {
    OVERVIEW[i].4@
}

/// The language whose record stands at place `i`.
#[verifier::opaque]
pub open spec fn language_at(i: int) -> Language {
    LANGUAGES[i]
}

/// What the slot `slot` of the two-letter codes holds: one more than the
/// place of the record with that code, or 0.
#[verifier::opaque]
pub open spec fn two_letter_slot_at(slot: int) -> int {
    TWO_LETTER_SLOTS[slot] as int
}

/// The fields of one record of the table.
pub(crate) struct LanguageData {
    /// The three-letter code.
    pub code_3: &'static str,
    /// The two-letter code; empty if the language has none.
    pub code_1: &'static str,
    /// The English name.
    pub name_en: &'static str,
    /// The English name in lower case.
    pub name_en_lc: &'static str,
    /// The autonym; empty if the table has none.
    pub autonym: &'static str,
}

/// The record at place `i` of the table.
pub(crate) fn record(i: usize) -> (r: LanguageData)
    requires
        i < LANGUAGE_COUNT,
    ensures
        r.code_3@ == code_3_at(i as int),
        r.code_1@ == code_1_at(i as int),
        r.name_en@ == name_at(i as int),
        r.name_en_lc@ == name_lowercase_at(i as int),
        r.autonym@ == autonym_at(i as int),
{
    proof {
        reveal(code_3_at);
        reveal(code_1_at);
        reveal(name_at);
        reveal(name_lowercase_at);
        reveal(autonym_at);
    }
    let row = OVERVIEW[i];
    LanguageData {
        code_3: row.0,
        code_1: row.1,
        name_en: row.2,
        name_en_lc: row.3,
        autonym: row.4,
    }
}

/// The language at place `i` of the table.
pub(crate) fn language(i: usize) -> (l: Language)
    requires
        i < LANGUAGE_COUNT,
    ensures
        l == language_at(i as int),
{
    proof {
        reveal(language_at);
    }
    LANGUAGES[i]
}

/// What the slot `slot` of the two-letter codes holds.
pub(crate) fn two_letter_slot_value(slot: usize) -> (v: u16)
    requires
        slot < 676,
    ensures
        v == two_letter_slot_at(slot as int),
{
    proof {
        reveal(two_letter_slot_at);
    }
    TWO_LETTER_SLOTS[slot]
}

} // verus!
