//! Lists of languages in table order: all of them, and those whose name a
//! caller's test accepts.

use vstd::prelude::*;
use crate::facts::order::lemma_languages_in_order;
use crate::overview::{language, language_at, record};
use crate::table::{Language, LANGUAGE_COUNT};

verus! {

/// Whether the languages of `list` stand in table order, none of them twice.
pub open spec fn in_table_order(list: Seq<Language>) -> bool {
    forall|a: int, b: int| 0 <= a < b < list.len() ==> list[a].index() < list[b].index()
}

/// Whether `matcher`, called with the text `text`, can give `answer`.
pub open spec fn answers<F: Fn(&str) -> bool>(matcher: F, text: Seq<char>, answer: bool) -> bool {
    exists|s: &str| s@ == text && call_ensures(matcher, (s,), answer)
}

/// Whether `list` holds, among the languages before place `end`, those for
/// whose English name `matcher` gave `true`, and leaves out those for whose
/// name it gave `false`.
pub open spec fn selects_names<F: Fn(&str) -> bool>(
    matcher: F,
    list: Seq<Language>,
    end: int,
) -> bool {
    &&& in_table_order(list)
    &&& forall|a: int| 0 <= a < list.len() ==> (#[trigger] list[a]).index() < end
    &&& forall|l: Language|
        l.index() < end ==> answers(matcher, #[trigger] l.name(), list.contains(l))
}

/// Whether `list` holds, among the languages before place `end`, those with
/// an autonym for which `matcher` gave `true`, and leaves out those without
/// an autonym and those for whose autonym it gave `false`.
pub open spec fn selects_autonyms<F: Fn(&str) -> bool>(
    matcher: F,
    list: Seq<Language>,
    end: int,
) -> bool {
    &&& in_table_order(list)
    &&& forall|a: int| 0 <= a < list.len() ==> (#[trigger] list[a]).index() < end
    &&& forall|l: Language|
        l.index() < end ==> match #[trigger] l.autonym() {
            Some(autonym) => answers(matcher, autonym, list.contains(l)),
            None => !list.contains(l),
        }
}

/// Whether `matcher` gives one answer for each text, whenever it is asked.
pub open spec fn is_consistent<F: Fn(&str) -> bool>(matcher: F) -> bool {
    forall|text: Seq<char>, x: bool, y: bool|
        #![trigger answers(matcher, text, x), answers(matcher, text, y)]
        answers(matcher, text, x) && answers(matcher, text, y) ==> x == y
}

/// Two lists in table order that hold the same languages are the same list.
pub proof fn lemma_same_members(a: Seq<Language>, b: Seq<Language>)
    requires
        in_table_order(a),
        in_table_order(b),
        forall|l: Language| a.contains(l) <==> b.contains(l),
    ensures
        a == b,
    decreases a.len(),
{
    if a.len() == 0 {
        if b.len() > 0 {
            assert(b.contains(b[0]));
        }
        assert(a =~= b);
    } else {
        let last = a.last();
        assert(a.contains(last));
        let at = choose|i: int| 0 <= i < b.len() && b[i] == last;
        assert(b.contains(b.last()));
        let back = choose|i: int| 0 <= i < a.len() && a[i] == b.last();
        last.lemma_index();
        b.last().lemma_index();
        assert(b.last() == last);
        let shorter_a = a.drop_last();
        let shorter_b = b.drop_last();
        assert forall|l: Language| shorter_a.contains(l) <==> shorter_b.contains(l) by {
            if shorter_a.contains(l) {
                let i = choose|i: int| 0 <= i < shorter_a.len() && shorter_a[i] == l;
                assert(a[i] == l);
                assert(a.contains(l));
                let j = choose|j: int| 0 <= j < b.len() && b[j] == l;
                assert(shorter_b[j] == l);
            }
            if shorter_b.contains(l) {
                let j = choose|j: int| 0 <= j < shorter_b.len() && shorter_b[j] == l;
                assert(b[j] == l);
                assert(b.contains(l));
                let i = choose|i: int| 0 <= i < a.len() && a[i] == l;
                assert(shorter_a[i] == l);
            }
        }
        lemma_same_members(shorter_a, shorter_b);
        assert(a =~= shorter_a.push(last));
        assert(b =~= shorter_b.push(last));
    }
}

/// Asked again, a consistent matcher selects the same languages by name, in
/// the same order.
pub proof fn lemma_match_names_again<F: Fn(&str) -> bool>(
    matcher: F,
    first: Seq<Language>,
    second: Seq<Language>,
)
    requires
        is_consistent(matcher),
        selects_names(matcher, first, LANGUAGE_COUNT as int),
        selects_names(matcher, second, LANGUAGE_COUNT as int),
    ensures
        first == second,
{
    assert forall|l: Language| first.contains(l) <==> second.contains(l) by {
        l.lemma_index();
        assert(answers(matcher, l.name(), first.contains(l)));
        assert(answers(matcher, l.name(), second.contains(l)));
    }
    lemma_same_members(first, second);
}

/// Asked again, a consistent matcher selects the same languages by autonym,
/// in the same order.
pub proof fn lemma_match_autonyms_again<F: Fn(&str) -> bool>(
    matcher: F,
    first: Seq<Language>,
    second: Seq<Language>,
)
    requires
        is_consistent(matcher),
        selects_autonyms(matcher, first, LANGUAGE_COUNT as int),
        selects_autonyms(matcher, second, LANGUAGE_COUNT as int),
    ensures
        first == second,
{
    assert forall|l: Language| first.contains(l) <==> second.contains(l) by {
        l.lemma_index();
        match l.autonym() {
            Some(text) => {
                assert(answers(matcher, text, first.contains(l)));
                assert(answers(matcher, text, second.contains(l)));
            },
            None => {},
        }
    }
    lemma_same_members(first, second);
}

/// All languages, in table order.
pub fn languages() -> (all: Vec<Language>)
    ensures
        all@.len() == LANGUAGE_COUNT,
        forall|i: int| 0 <= i < all@.len() ==> (#[trigger] all@[i]).index() == i,
{
    let mut all: Vec<Language> = Vec::new();
    let mut i: usize = 0;
    while i < LANGUAGE_COUNT
        invariant
            i <= LANGUAGE_COUNT,
            all@.len() == i,
            forall|j: int| 0 <= j < all@.len() ==> (#[trigger] all@[j]).index() == j,
        decreases LANGUAGE_COUNT - i,
    {
        proof {
            lemma_languages_in_order();
        }
        all.push(language(i));
        i += 1;
    }
    all
}

impl Language {
    /// The languages whose English name `matcher` accepts, in table order.
    pub fn match_names<F>(matcher: F) -> (found: Vec<Language>) where
        F: Fn(&str) -> bool + 'static,

        requires
            forall|s: &str| call_requires(matcher, (s,)),
        ensures
            selects_names(matcher, found@, LANGUAGE_COUNT as int),
    {
        let mut found: Vec<Language> = Vec::new();
        let mut i: usize = 0;
        while i < LANGUAGE_COUNT
            invariant
                i <= LANGUAGE_COUNT,
                forall|s: &str| call_requires(matcher, (s,)),
                selects_names(matcher, found@, i as int),
            decreases LANGUAGE_COUNT - i,
        {
            let name = record(i).name_en;
            let accepted = matcher(name);
            let ghost before = found@;
            if accepted {
                found.push(language(i));
            }
            proof {
                lemma_languages_in_order();
                let here = language_at(i as int);
                assert(answers(matcher, here.name(), accepted));
                assert forall|l: Language| l.index() < i + 1 implies answers(
                    matcher,
                    #[trigger] l.name(),
                    found@.contains(l),
                ) by {
                    l.lemma_index();
                    if l.index() < i {
                        assert(answers(matcher, l.name(), before.contains(l)));
                        if before.contains(l) {
                            let a = choose|a: int| 0 <= a < before.len() && before[a] == l;
                            assert(found@[a] == l);
                        } else if found@.contains(l) {
                            let a = choose|a: int| 0 <= a < found@.len() && found@[a] == l;
                            assert(a == before.len());
                        }
                    } else {
                        assert(l == here);
                        if accepted {
                            assert(found@[before.len() as int] == l);
                        } else if found@.contains(l) {
                            let a = choose|a: int| 0 <= a < found@.len() && found@[a] == l;
                            assert(before[a].index() < i);
                        }
                    }
                }
            }
            i += 1;
        }
        found
    }

    /// The languages whose autonym `matcher` accepts, in table order. A
    /// language without an autonym is never among them.
    pub fn match_autonyms<F>(matcher: F) -> (found: Vec<Language>) where
        F: Fn(&str) -> bool + 'static,

        requires
            forall|s: &str| call_requires(matcher, (s,)),
        ensures
            selects_autonyms(matcher, found@, LANGUAGE_COUNT as int),
    {
        let mut found: Vec<Language> = Vec::new();
        let mut i: usize = 0;
        while i < LANGUAGE_COUNT
            invariant
                i <= LANGUAGE_COUNT,
                forall|s: &str| call_requires(matcher, (s,)),
                selects_autonyms(matcher, found@, i as int),
            decreases LANGUAGE_COUNT - i,
        {
            let autonym = record(i).autonym;
            let accepted = !autonym.is_empty() && matcher(autonym);
            let ghost before = found@;
            if accepted {
                found.push(language(i));
            }
            proof {
                lemma_languages_in_order();
                let here = language_at(i as int);
                assert(here.autonym() matches Some(text) ==> answers(matcher, text, accepted));
                assert forall|l: Language| l.index() < i + 1 implies match #[trigger] l.autonym() {
                    Some(text) => answers(matcher, text, found@.contains(l)),
                    None => !found@.contains(l),
                } by {
                    l.lemma_index();
                    if l.index() < i {
                        if before.contains(l) {
                            let a = choose|a: int| 0 <= a < before.len() && before[a] == l;
                            assert(found@[a] == l);
                        } else if found@.contains(l) {
                            let a = choose|a: int| 0 <= a < found@.len() && found@[a] == l;
                            assert(a == before.len());
                        }
                    } else {
                        assert(l == here);
                        if accepted {
                            assert(found@[before.len() as int] == l);
                        } else if found@.contains(l) {
                            let a = choose|a: int| 0 <= a < found@.len() && found@[a] == l;
                            assert(before[a].index() < i);
                        }
                    }
                }
            }
            i += 1;
        }
        found
    }
}

} // verus!
