//! The perfect-hash probe behind the two reverse indexes.
//!
//! A reverse index is the data of a `phf::Map`: a hash key, a list of
//! displacements and a list of entries. Nothing is assumed of that data.
//! The probe names the one entry that a code hashes to and returns its
//! language if the entry's code is the one asked for.

use vstd::prelude::*;
use crate::overview::record;
use crate::table::{
    Language, THREE_TO_THREE, THREE_TO_THREE_DISPS, THREE_TO_THREE_KEY, TWO_TO_THREE,
    TWO_TO_THREE_DISPS, TWO_TO_THREE_KEY,
};
use crate::text::str_eq;

verus! {

/// The position in a list of `len` entries that the perfect hash with the
/// given key and displacements gives to `code`: where `phf::Map::get` looks
/// for `code`.
pub uninterp spec fn phf_slot(key: u64, disps: Seq<(u32, u32)>, len: nat, code: Seq<char>) -> nat;

/// What a probe with `code` returns from the index made of `key`, `disps`
/// and `entries`.
pub open spec fn probe_result(
    key: u64,
    disps: Seq<(u32, u32)>,
    entries: Seq<(&'static str, Language)>,
    code: Seq<char>,
) -> Option<Language> {
    let slot = phf_slot(key, disps, entries.len(), code) as int;
    if disps.len() > 0 && slot < entries.len() && entries[slot].0@ == code {
        Some(entries[slot].1)
    } else {
        None
    }
}

/// Looks `code` up with `phf::Map::get` in the map made of the three parts.
///
/// The map answers nothing when it has no displacements. Otherwise it hashes
/// `code` to one position below the number of entries, and returns that
/// entry's language if that entry's code equals `code`, and nothing if not.
#[verifier::external_body]
pub(crate) fn probe(
    key: u64,
    disps: &'static [(u32, u32)],
    entries: &'static [(&'static str, Language)],
    code: &str,
) -> (r: Option<Language>)
    requires
        0 < entries@.len() <= u32::MAX,
        disps@.len() <= u32::MAX,
    ensures
        r == (if disps@.len() > 0 && phf_slot(key, disps@, entries@.len(), code@) < entries@.len()
            && entries@[phf_slot(key, disps@, entries@.len(), code@) as int].0@ == code@ {
            Some(entries@[phf_slot(key, disps@, entries@.len(), code@) as int].1)
        } else {
            None
        }),
{
    phf::Map { key, disps, entries }.get(code).copied()
}

impl Language {
    /// The answer `answer` to the three-letter code `code`, where the table
    /// confirms it: the record of the language that it names holds `code`.
    pub open spec fn confirmed_code_3(answer: Option<Language>, code: Seq<char>) -> Option<
        Language,
    > {
        match answer {
            Some(l) => if l.code_3() == code {
                Some(l)
            } else {
                None
            },
            None => None,
        }
    }

    /// The answer `answer` to the two-letter code `code`, where the table
    /// confirms it: the record of the language that it names holds `code`.
    pub open spec fn confirmed_code_1(answer: Option<Language>, code: Seq<char>) -> Option<
        Language,
    > {
        match answer {
            Some(l) => if l.code_1() == Some(code) {
                Some(l)
            } else {
                None
            },
            None => None,
        }
    }

    /// What the perfect hash over the three-letter codes answers for `code`,
    /// where the table confirms it.
    pub open spec fn hashed_code_3(code: Seq<char>) -> Option<Language> {
        Language::confirmed_code_3(
            probe_result(THREE_TO_THREE_KEY, THREE_TO_THREE_DISPS@, THREE_TO_THREE@, code),
            code,
        )
    }

    /// What the perfect hash over the two-letter codes answers for `code`,
    /// where the table confirms it.
    pub open spec fn hashed_code_1(code: Seq<char>) -> Option<Language> {
        Language::confirmed_code_1(
            probe_result(TWO_TO_THREE_KEY, TWO_TO_THREE_DISPS@, TWO_TO_THREE@, code),
            code,
        )
    }

    /// Keeps an answer to the three-letter code `code` only where the record
    /// of the language that it names holds `code`.
    pub fn confirm_639_3(answer: Option<Language>, code: &str) -> (r: Option<Language>)
        ensures
            r == Language::confirmed_code_3(answer, code@),
    {
        match answer {
            Some(l) => {
                if str_eq(record(l as usize).code_3, code) {
                    Some(l)
                } else {
                    None
                }
            },
            None => None,
        }
    }

    /// Keeps an answer to the two-letter code `code` only where the record
    /// of the language that it names holds `code`.
    pub fn confirm_639_1(answer: Option<Language>, code: &str) -> (r: Option<Language>)
        ensures
            r == Language::confirmed_code_1(answer, code@),
    {
        match answer {
            Some(l) => {
                let own = record(l as usize).code_1;
                if !own.is_empty() && str_eq(own, code) {
                    Some(l)
                } else {
                    None
                }
            },
            None => None,
        }
    }

    /// The answer of the perfect hash over the three-letter codes, kept only
    /// where the record of the language it names holds `code`.
    pub fn hashed_639_3(code: &str) -> (r: Option<Language>)
        ensures
            r == Language::hashed_code_3(code@),
            r matches Some(l) ==> l.code_3() == code@,
    {
        Language::confirm_639_3(
            probe(THREE_TO_THREE_KEY, &THREE_TO_THREE_DISPS, &THREE_TO_THREE, code),
            code,
        )
    }

    /// The answer of the perfect hash over the two-letter codes, kept only
    /// where the record of the language it names holds `code`.
    pub fn hashed_639_1(code: &str) -> (r: Option<Language>)
        ensures
            r == Language::hashed_code_1(code@),
            r matches Some(l) ==> l.code_1() == Some(code@),
    {
        Language::confirm_639_1(
            probe(TWO_TO_THREE_KEY, &TWO_TO_THREE_DISPS, &TWO_TO_THREE, code),
            code,
        )
    }
}

} // verus!
