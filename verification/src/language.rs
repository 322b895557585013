//! The record of a language: what the overview table holds for it, as
//! specification and as code.

use vstd::prelude::*;
use crate::facts::names::lemma_names;
use crate::facts::order::lemma_languages_in_order;
use crate::overview::{
    autonym_at, code_1_at, code_3_at, language, language_at, name_at, name_lowercase_at, record,
};
use crate::table::{Language, LANGUAGE_COUNT};
use crate::text::all_lower_letters;

verus! {

/// A field of the table that may be missing: the empty string stands for
/// "none".
pub open spec fn present(s: Seq<char>) -> Option<Seq<char>> {
    if s.len() == 0 {
        None
    } else {
        Some(s)
    }
}

/// The characters of an optional string.
pub open spec fn option_view(s: Option<&str>) -> Option<Seq<char>> {
    match s {
        Some(s) => Some(s@),
        None => None,
    }
}

impl Language {
    /// The place of this language's record in the overview table.
    pub open spec fn index(self) -> nat {
        self as nat
    }

    /// The three-letter code of this language.
    pub open spec fn code_3(self) -> Seq<char> {
        code_3_at(self as int)
    }

    /// The two-letter code of this language, where it has one.
    pub open spec fn code_1(self) -> Option<Seq<char>> {
        present(code_1_at(self as int))
    }

    /// The English name of this language.
    pub open spec fn name(self) -> Seq<char> {
        name_at(self as int)
    }

    /// The English name of this language in lower case.
    pub open spec fn name_lowercase(self) -> Seq<char> {
        name_lowercase_at(self as int)
    }

    /// The name of this language in the language itself, where the table has
    /// one.
    pub open spec fn autonym(self) -> Option<Seq<char>> {
        present(autonym_at(self as int))
    }

    /// Every language has a place in the table, and no two share one.
    pub proof fn lemma_index(self)
        ensures
            self.index() < LANGUAGE_COUNT,
            language_at(self as int) == self,
    {
        lemma_languages_in_order();
        let i = self as int;
        assert(language_at(i) as int == i);
    }

    /// The place of this language's record in the overview table.
    pub fn to_usize(self) -> (u: usize)
        ensures
            u == self.index(),
            u < LANGUAGE_COUNT,
    {
        self as usize
    }

    /// The language at place `u` of the table, if the table has that many
    /// records.
    pub fn from_usize(u: usize) -> (r: Option<Language>)
        ensures
            r == (if u < LANGUAGE_COUNT {
                Some(language_at(u as int))
            } else {
                None
            }),
            r matches Some(l) ==> l.index() == u,
    {
        if u < LANGUAGE_COUNT {
            proof {
                lemma_languages_in_order();
            }
            Some(language(u))
        } else {
            None
        }
    }

    /// The three-letter code of this language.
    pub fn to_639_3(&self) -> (code: &'static str)
        ensures
            code@ == self.code_3(),
            code@.len() == 3,
            all_lower_letters(code@),
    {
        proof {
            self.lemma_code_3_letters();
        }
        record(*self as usize).code_3
    }

    /// The two-letter code of this language, or `None` if it has none.
    pub fn to_639_1(&self) -> (code: Option<&'static str>)
        ensures
            option_view(code) == self.code_1(),
    {
        let code = record(*self as usize).code_1;
        if code.is_empty() {
            None
        } else {
            Some(code)
        }
    }

    /// The English name of this language, without any remark in brackets.
    pub fn to_name(&self) -> (name: &'static str)
        ensures
            name@ == self.name(),
            name@.len() > 0,
    {
        proof {
            lemma_names();
        }
        record(*self as usize).name_en
    }

    /// The name of this language in the language itself, or `None` if the
    /// table has none.
    pub fn to_autonym(&self) -> (autonym: Option<&'static str>)
        ensures
            option_view(autonym) == self.autonym(),
    {
        let autonym = record(*self as usize).autonym;
        if autonym.is_empty() {
            None
        } else {
            Some(autonym)
        }
    }
}

} // verus!
