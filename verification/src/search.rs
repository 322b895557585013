//! Search of the table by a name: the first record, in table order, that
//! holds the text asked for.

use vstd::prelude::*;
use crate::facts::order::lemma_languages_in_order;
use crate::overview::{language, language_at, record};
use crate::table::{Language, LANGUAGE_COUNT};
use crate::text::str_eq;

verus! {

/// The first language at place `from` or later that satisfies `p`.
pub open spec fn first_from(p: spec_fn(Language) -> bool, from: nat) -> Option<Language>
    decreases LANGUAGE_COUNT - from,
{
    if from >= LANGUAGE_COUNT {
        None
    } else if p(language_at(from as int)) {
        Some(language_at(from as int))
    } else {
        first_from(p, from + 1)
    }
}

/// The first language of the table that satisfies `p`.
pub open spec fn first_match(p: spec_fn(Language) -> bool) -> Option<Language> {
    first_from(p, 0)
}

/// Languages with the English name `name`.
pub open spec fn has_name(name: Seq<char>) -> spec_fn(Language) -> bool {
    |l: Language| l.name() == name
}

/// Languages with the lower-case English name `name`.
pub open spec fn has_name_lowercase(name: Seq<char>) -> spec_fn(Language) -> bool {
    |l: Language| l.name_lowercase() == name
}

/// Languages with the autonym `autonym`.
pub open spec fn has_autonym(autonym: Seq<char>) -> spec_fn(Language) -> bool {
    |l: Language| l.autonym() == Some(autonym)
}

/// What `first_from` finds: a language that satisfies `p`, at place `from` or
/// later, with no such language between `from` and it; or nothing, when no
/// language from `from` on satisfies `p`.
pub proof fn lemma_first_from(p: spec_fn(Language) -> bool, from: nat)
    ensures
        match first_from(p, from) {
            Some(l) => p(l) && from <= l.index() && forall|k: Language|
                from <= k.index() < l.index() ==> !#[trigger] p(k),
            None => forall|k: Language| from <= k.index() ==> !#[trigger] p(k),
        },
    decreases LANGUAGE_COUNT - from,
{
    if from < LANGUAGE_COUNT {
        lemma_languages_in_order();
        lemma_first_from(p, from + 1);
        assert forall|k: Language| #[trigger] k.index() == from implies k == language_at(from as int) by {
            k.lemma_index();
        }
    } else {
        assert forall|k: Language| from <= k.index() implies !#[trigger] p(k) by {
            k.lemma_index();
        }
    }
}

/// What `first_match` finds: the language that satisfies `p` and comes before
/// every other that does; or nothing, when no language satisfies `p`.
pub proof fn lemma_first_match(p: spec_fn(Language) -> bool)
    ensures
        match first_match(p) {
            Some(l) => p(l) && forall|k: Language| k.index() < l.index() ==> !#[trigger] p(k),
            None => forall|k: Language| !#[trigger] p(k),
        },
{
    lemma_first_from(p, 0);
}

/// Where exactly one language satisfies `p`, it is the first match.
pub proof fn lemma_first_match_only(p: spec_fn(Language) -> bool, l: Language)
    requires
        p(l),
        forall|k: Language| #[trigger] p(k) ==> k == l,
    ensures
        first_match(p) == Some(l),
{
    lemma_first_match(p);
}

/// Where no language satisfies `p`, there is no first match.
pub proof fn lemma_first_match_none(p: spec_fn(Language) -> bool)
    requires
        forall|k: Language| !#[trigger] p(k),
    ensures
        first_match(p) is None,
{
    lemma_first_match(p);
}

impl Language {
    /// The first language of the table whose English name is `name`.
    pub open spec fn find_name(name: Seq<char>) -> Option<Language> {
        first_match(has_name(name))
    }

    /// The first language of the table whose lower-case English name is
    /// `name`.
    pub open spec fn find_name_lowercase(name: Seq<char>) -> Option<Language> {
        first_match(has_name_lowercase(name))
    }

    /// The first language of the table whose autonym is `autonym`.
    pub open spec fn find_autonym(autonym: Seq<char>) -> Option<Language> {
        first_match(has_autonym(autonym))
    }

    /// The language with the English name `engl_name`; where several have
    /// it, the first of them in the table.
    pub fn from_name(engl_name: &str) -> (r: Option<Language>)
        ensures
            r == Language::find_name(engl_name@),
    {
        let ghost p = has_name(engl_name@);
        let mut i: usize = 0;
        while i < LANGUAGE_COUNT
            invariant
                i <= LANGUAGE_COUNT,
                p == has_name(engl_name@),
                first_match(p) == first_from(p, i as nat),
            decreases LANGUAGE_COUNT - i,
        {
            proof {
                lemma_languages_in_order();
            }
            if str_eq(record(i).name_en, engl_name) {
                return Some(language(i));
            }
            i += 1;
        }
        None
    }

    /// The language with the lower-case English name `engl_name`; where
    /// several have it, the first of them in the table.
    pub fn from_name_lowercase(engl_name: &str) -> (r: Option<Language>)
        ensures
            r == Language::find_name_lowercase(engl_name@),
    {
        let ghost p = has_name_lowercase(engl_name@);
        let mut i: usize = 0;
        while i < LANGUAGE_COUNT
            invariant
                i <= LANGUAGE_COUNT,
                p == has_name_lowercase(engl_name@),
                first_match(p) == first_from(p, i as nat),
            decreases LANGUAGE_COUNT - i,
        {
            proof {
                lemma_languages_in_order();
            }
            if str_eq(record(i).name_en_lc, engl_name) {
                return Some(language(i));
            }
            i += 1;
        }
        None
    }

    /// The language with the autonym `autonym`; where several have it, the
    /// first of them in the table.
    pub fn from_autonym(autonym: &str) -> (r: Option<Language>)
        ensures
            r == Language::find_autonym(autonym@),
    {
        let ghost p = has_autonym(autonym@);
        let mut i: usize = 0;
        while i < LANGUAGE_COUNT
            invariant
                i <= LANGUAGE_COUNT,
                p == has_autonym(autonym@),
                first_match(p) == first_from(p, i as nat),
            decreases LANGUAGE_COUNT - i,
        {
            proof {
                lemma_languages_in_order();
            }
            let own = record(i).autonym;
            if !own.is_empty() && str_eq(own, autonym) {
                return Some(language(i));
            }
            i += 1;
        }
        None
    }
}

} // verus!
