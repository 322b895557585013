//! The languages of the table stand in the order of their numbers.

use vstd::prelude::*;
use crate::overview::language_at;
use crate::table::LANGUAGE_COUNT;

verus! {

proof fn lemma_languages_in_order_from_0(i: int)
    requires
        0 <= i < 34,
    ensures
        language_at(i) as int == i,
{
    reveal(language_at);
}

proof fn lemma_languages_in_order_from_34(i: int)
    requires
        34 <= i < 68,
    ensures
        language_at(i) as int == i,
{
    reveal(language_at);
}

proof fn lemma_languages_in_order_from_68(i: int)
    requires
        68 <= i < 102,
    ensures
        language_at(i) as int == i,
{
    reveal(language_at);
}

proof fn lemma_languages_in_order_from_102(i: int)
    requires
        102 <= i < 136,
    ensures
        language_at(i) as int == i,
{
    reveal(language_at);
}

proof fn lemma_languages_in_order_from_136(i: int)
    requires
        136 <= i < 170,
    ensures
        language_at(i) as int == i,
{
    reveal(language_at);
}

proof fn lemma_languages_in_order_from_170(i: int)
    requires
        170 <= i < 204,
    ensures
        language_at(i) as int == i,
{
    reveal(language_at);
}

proof fn lemma_languages_in_order_from_204(i: int)
    requires
        204 <= i < 238,
    ensures
        language_at(i) as int == i,
{
    reveal(language_at);
}

/// The language at each place of the table has that place as its number.
pub proof fn lemma_languages_in_order()
    ensures
        forall|i: int| 0 <= i < LANGUAGE_COUNT ==> (#[trigger] language_at(i)) as int == i,
{
    assert forall|i: int| 0 <= i < LANGUAGE_COUNT implies (#[trigger] language_at(i)) as int == i by {
        if 0 <= i < 34 {
            lemma_languages_in_order_from_0(i);
        }
        if 34 <= i < 68 {
            lemma_languages_in_order_from_34(i);
        }
        if 68 <= i < 102 {
            lemma_languages_in_order_from_68(i);
        }
        if 102 <= i < 136 {
            lemma_languages_in_order_from_102(i);
        }
        if 136 <= i < 170 {
            lemma_languages_in_order_from_136(i);
        }
        if 170 <= i < 204 {
            lemma_languages_in_order_from_170(i);
        }
        if 204 <= i < 238 {
            lemma_languages_in_order_from_204(i);
        }
    }
}

} // verus!
