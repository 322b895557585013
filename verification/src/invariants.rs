//! What always holds of the overview table that the library is built with:
//! it is a table that the compiler accepts.

use vstd::prelude::*;
use crate::codes::lemma_codes_increase;
use crate::compiler::checks::{is_code_1, is_code_3, well_formed};
use crate::compiler::records::Record;
use crate::facts::names::lemma_names;
use crate::facts::order::lemma_languages_in_order;
use crate::overview::{language_at, name_at};
use crate::table::LANGUAGE_COUNT;
use crate::text::code_key;

verus! {

/// The records of the overview table, as text.
pub open spec fn overview_records() -> Seq<Record> {
    Seq::new(
        LANGUAGE_COUNT as nat,
        |i: int|
            Record {
                code_3: language_at(i).code_3(),
                code_1: language_at(i).code_1(),
                name_en: language_at(i).name(),
                autonym: language_at(i).autonym(),
            },
    )
}

/// The overview table is well formed: every three-letter code is three
/// letters, and the codes grow from record to record; every two-letter code
/// is two letters, and no two records share one; every record has a name.
pub proof fn lemma_overview_well_formed()
    ensures
        well_formed(overview_records()),
{
    let records = overview_records();
    lemma_languages_in_order();
    lemma_names();
    assert forall|i: int| 0 <= i < records.len() implies is_code_3(
        #[trigger] records[i].code_3,
    ) by {
        language_at(i).lemma_code_3_letters();
    }
    assert forall|i: int| 0 <= i < records.len() implies (#[trigger] records[i].code_1 matches Some(
        code,
    ) ==> is_code_1(code)) by {
        language_at(i).lemma_code_1_letters();
    }
    assert forall|i: int| 0 <= i < records.len() implies (#[trigger] records[i].name_en).len()
        > 0 by {
        assert(name_at(i).len() > 0);
    }
    assert forall|i: int, j: int| 0 <= i < j < records.len() implies code_key(
        #[trigger] records[i].code_3,
    ) < code_key(#[trigger] records[j].code_3) by {
        lemma_codes_increase(i, j);
    }
    assert forall|i: int, j: int|
        0 <= i < records.len() && 0 <= j < records.len() && i != j
            && #[trigger] records[i].code_1 is Some implies records[i].code_1
        != #[trigger] records[j].code_1 by {
        if records[i].code_1 == records[j].code_1 {
            language_at(i).lemma_code_1_unique(language_at(j));
        }
    }
}

} // verus!
