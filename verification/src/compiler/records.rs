//! The records of the overview table, read from the two datasets.
//!
//! Both datasets are tab-separated text with a header line. A row of the
//! registry gives the three-letter code in its first field, the two-letter
//! code in its fourth and the name in its seventh. A row of the list of
//! autonyms gives the three-letter code in its first field and the autonym
//! in its fourth.

use vstd::prelude::*;
use vstd::string::StringSliceAdditionalSpecFns;
use vstd::utf8::{decode_utf8, encode_utf8_decode_utf8};
use crate::compiler::names::{cut_remark, split_name, trimmed_end};
use crate::compiler::rows::{bytes_of, fields, fields_of, lines, lines_of};
use crate::language::option_view;
use crate::text::{byte_len, str_eq};

verus! {

/// What the datasets say of one language.
#[derive(Debug, Clone, Copy, PartialEq, Eq)]
pub struct LangCode<'a> {
    /// The three-letter code.
    pub code_3: &'a str,
    /// The two-letter code, where the language has one.
    pub code_1: Option<&'a str>,
    /// The English name, without a remark in brackets.
    pub name_en: &'a str,
    /// The autonym, where the list of autonyms has one.
    pub autonym: Option<&'a str>,
}

/// One row of the list of autonyms.
#[derive(Debug, Clone, Copy, PartialEq, Eq)]
pub struct Autonym<'a> {
    /// The three-letter code.
    pub code_3: &'a str,
    /// The autonym, where the row has one.
    pub autonym: Option<&'a str>,
}

/// A record of the overview table, as text.
pub struct Record {
    /// The three-letter code.
    pub code_3: Seq<char>,
    /// The two-letter code, where the language has one.
    pub code_1: Option<Seq<char>>,
    /// The English name.
    pub name_en: Seq<char>,
    /// The autonym, where there is one.
    pub autonym: Option<Seq<char>>,
}

impl<'a> View for LangCode<'a> {
    type V = Record;

    open spec fn view(&self) -> Record {
        Record {
            code_3: self.code_3@,
            code_1: option_view(self.code_1),
            name_en: self.name_en@,
            autonym: option_view(self.autonym),
        }
    }
}

impl<'a> View for Autonym<'a> {
    type V = (Seq<char>, Option<Seq<char>>);

    open spec fn view(&self) -> (Seq<char>, Option<Seq<char>>) {
        (self.code_3@, option_view(self.autonym))
    }
}

/// A row of the registry that has no seventh field, and so no name.
#[derive(Debug, PartialEq, Eq)]
pub struct MissingColumn {
    /// The place of the row among the rows behind the header, from 0.
    pub row: usize,
}

/// The lines of a dataset behind its header line.
pub open spec fn data_rows(table: Seq<u8>) -> Seq<Seq<u8>> {
    if lines_of(table).len() == 0 {
        lines_of(table)
    } else {
        lines_of(table).drop_first()
    }
}

/// What a row of the list of autonyms says: the code, and the autonym unless
/// the row has no fourth field or an empty one.
pub open spec fn autonym_of_row(row: Seq<u8>) -> (Seq<char>, Option<Seq<char>>) {
    let columns = fields_of(row);
    (
        decode_utf8(columns[0]),
        if columns.len() > 3 && columns[3].len() > 0 {
            Some(decode_utf8(columns[3]))
        } else {
            None
        },
    )
}

/// The autonym that `autonyms` gives for `code`: that of the last row with
/// this code, and none where no row has it.
pub open spec fn autonym_for(autonyms: Seq<(Seq<char>, Option<Seq<char>>)>, code: Seq<char>) -> Option<
    Seq<char>,
>
    decreases autonyms.len(),
{
    if autonyms.len() == 0 {
        None
    } else if autonyms.last().0 == code {
        autonyms.last().1
    } else {
        autonym_for(autonyms.drop_last(), code)
    }
}

/// The name in a name field of the registry: the field up to its remark,
/// without white space at the end, where it has exactly one remark; else the
/// field as it stands.
pub open spec fn name_of_field(field: Seq<u8>) -> Seq<char> {
    match cut_remark(field) {
        Some((name, _)) => trimmed_end(decode_utf8(name)),
        None => decode_utf8(field),
    }
}

/// What a row of the registry says, together with the autonyms: nothing
/// where the row has less than seven fields.
pub open spec fn record_of_row(row: Seq<u8>, autonyms: Seq<(Seq<char>, Option<Seq<char>>)>) -> Option<
    Record,
> {
    let columns = fields_of(row);
    if columns.len() < 7 {
        None
    } else {
        Some(
            Record {
                code_3: decode_utf8(columns[0]),
                code_1: if columns[3].len() == 2 {
                    Some(decode_utf8(columns[3]))
                } else {
                    None
                },
                name_en: name_of_field(columns[6]),
                autonym: autonym_for(autonyms, decode_utf8(columns[0])),
            },
        )
    }
}

/// What the list of autonyms says, row by row.
pub open spec fn autonyms_in(table: Seq<u8>) -> Seq<(Seq<char>, Option<Seq<char>>)> {
    data_rows(table).map_values(|row: Seq<u8>| autonym_of_row(row))
}

/// What the rows of the registry say, together with the autonyms.
pub open spec fn rows_read(iso_table: Seq<u8>, autonyms_table: Seq<u8>) -> Seq<Option<Record>> {
    data_rows(iso_table).map_values(
        |row: Seq<u8>| record_of_row(row, autonyms_in(autonyms_table)),
    )
}

/// Whether `records` are what the rows of the registry say, row by row.
pub open spec fn is_read_from(
    records: Seq<Record>,
    iso_table: Seq<u8>,
    autonyms_table: Seq<u8>,
) -> bool {
    &&& records.len() == rows_read(iso_table, autonyms_table).len()
    &&& forall|i: int|
        0 <= i < records.len() ==> Some(#[trigger] records[i]) == rows_read(
            iso_table,
            autonyms_table,
        )[i]
}

/// Whether the row at place `row` is the first row of the registry that
/// says nothing, for want of a name field.
pub open spec fn is_first_short_row(row: int, iso_table: Seq<u8>, autonyms_table: Seq<u8>) -> bool {
    &&& 0 <= row < rows_read(iso_table, autonyms_table).len()
    &&& rows_read(iso_table, autonyms_table)[row] is None
    &&& forall|i: int| 0 <= i < row ==> (#[trigger] rows_read(iso_table, autonyms_table)[i]) is Some
}

/// The views of `records`.
pub open spec fn record_views(records: Seq<LangCode>) -> Seq<Record> {
    records.map_values(|r: LangCode| r@)
}

/// The views of the rows of `autonyms`.
pub open spec fn autonym_views(autonyms: Seq<Autonym>) -> Seq<(Seq<char>, Option<Seq<char>>)> {
    autonyms.map_values(|a: Autonym| a@)
}

/// The characters of a string are what its bytes decode to.
pub proof fn lemma_text_of_bytes(s: &str)
    ensures
        s@ == decode_utf8(s.spec_bytes()),
{
    encode_utf8_decode_utf8(s@);
}

/// The rows of the list of autonyms, in order.
pub fn read_autonyms_table<'a>(table: &'a str) -> (autonyms: Vec<Autonym<'a>>)
    ensures
        autonyms@.len() == data_rows(table.spec_bytes()).len(),
        forall|i: int|
            0 <= i < autonyms@.len() ==> (#[trigger] autonyms@[i])@ == autonym_of_row(
                data_rows(table.spec_bytes())[i],
            ),
{
    let rows = lines(table);
    let mut autonyms: Vec<Autonym<'a>> = Vec::new();
    proof {
        assert(bytes_of(rows@).len() == rows@.len());
    }
    if rows.len() == 0 {
        return autonyms;
    }
    let mut i: usize = 1;
    while i < rows.len()
        invariant
            1 <= i <= rows@.len(),
            bytes_of(rows@) == lines_of(table.spec_bytes()),
            autonyms@.len() == i - 1,
            forall|j: int|
                0 <= j < autonyms@.len() ==> (#[trigger] autonyms@[j])@ == autonym_of_row(
                    data_rows(table.spec_bytes())[j],
                ),
        decreases rows@.len() - i,
    {
        let columns = fields(rows[i]);
        let code_3 = columns[0];
        let autonym = if columns.len() > 3 && byte_len(columns[3]) > 0 {
            Some(columns[3])
        } else {
            None
        };
        proof {
            assert(bytes_of(rows@)[i as int] == rows@[i as int].spec_bytes());
            assert(bytes_of(columns@)[0] == columns@[0].spec_bytes());
            lemma_text_of_bytes(code_3);
            if columns@.len() > 3 {
                assert(bytes_of(columns@)[3] == columns@[3].spec_bytes());
                lemma_text_of_bytes(columns@[3]);
            }
        }
        autonyms.push(Autonym { code_3, autonym });
        i += 1;
    }
    autonyms
}

/// The autonym that `autonyms` gives for `code`.
pub fn find_autonym<'a>(autonyms: &Vec<Autonym<'a>>, code: &str) -> (autonym: Option<&'a str>)
    ensures
        option_view(autonym) == autonym_for(autonym_views(autonyms@), code@),
{
    let mut i: usize = autonyms.len();
    proof {
        assert(autonym_views(autonyms@).take(i as int) =~= autonym_views(autonyms@));
    }
    while i > 0
        invariant
            i <= autonyms@.len(),
            autonym_for(autonym_views(autonyms@), code@) == autonym_for(
                autonym_views(autonyms@).take(i as int),
                code@,
            ),
        decreases i,
    {
        i -= 1;
        proof {
            let all = autonym_views(autonyms@);
            assert(all.take(i + 1).drop_last() =~= all.take(i as int));
            assert(all.take(i + 1).last() == autonyms@[i as int]@);
        }
        if str_eq(autonyms[i].code_3, code) {
            return autonyms[i].autonym;
        }
    }
    proof {
        assert(autonym_views(autonyms@).take(0).len() == 0);
    }
    None
}

/// The records that the registry and the list of autonyms give, in the
/// order of the rows of the registry; or the first row of the registry that
/// has no name field.
pub fn read_iso_table<'a>(iso_table: &'a str, autonyms_table: &'a str) -> (r: Result<
    Vec<LangCode<'a>>,
    MissingColumn,
>)
    ensures
        match r {
            Ok(records) => is_read_from(
                record_views(records@),
                iso_table.spec_bytes(),
                autonyms_table.spec_bytes(),
            ),
            Err(missing) => is_first_short_row(
                missing.row as int,
                iso_table.spec_bytes(),
                autonyms_table.spec_bytes(),
            ),
        },
{
    let autonyms = read_autonyms_table(autonyms_table);
    let rows = lines(iso_table);
    let mut records: Vec<LangCode<'a>> = Vec::new();
    proof {
        assert(bytes_of(rows@).len() == rows@.len());
        assert(autonym_views(autonyms@) =~= autonyms_in(autonyms_table.spec_bytes()));
    }
    if rows.len() == 0 {
        return Ok(records);
    }
    let mut i: usize = 1;
    while i < rows.len()
        invariant
            1 <= i <= rows@.len(),
            bytes_of(rows@) == lines_of(iso_table.spec_bytes()),
            autonym_views(autonyms@) == autonyms_in(autonyms_table.spec_bytes()),
            records@.len() == i - 1,
            forall|j: int|
                0 <= j < records@.len() ==> Some(#[trigger] record_views(records@)[j])
                    == rows_read(iso_table.spec_bytes(), autonyms_table.spec_bytes())[j],
        decreases rows@.len() - i,
    {
        let columns = fields(rows[i]);
        proof {
            assert(bytes_of(rows@)[i as int] == rows@[i as int].spec_bytes());
        }
        if columns.len() < 7 {
            proof {
                let read = rows_read(iso_table.spec_bytes(), autonyms_table.spec_bytes());
                assert forall|j: int| 0 <= j < i - 1 implies (#[trigger] read[j]) is Some by {
                    assert(Some(record_views(records@)[j]) == read[j]);
                }
            }
            return Err(MissingColumn { row: i - 1 });
        }
        let code_3 = columns[0];
        let code_1 = if byte_len(columns[3]) == 2 {
            Some(columns[3])
        } else {
            None
        };
        let (name_en, _) = split_name(columns[6]);
        let autonym = find_autonym(&autonyms, code_3);
        proof {
            assert(bytes_of(columns@)[0] == columns@[0].spec_bytes());
            assert(bytes_of(columns@)[3] == columns@[3].spec_bytes());
            assert(bytes_of(columns@)[6] == columns@[6].spec_bytes());
            lemma_text_of_bytes(columns@[0]);
            lemma_text_of_bytes(columns@[3]);
            lemma_text_of_bytes(columns@[6]);
        }
        let ghost before = record_views(records@);
        records.push(LangCode { code_3, code_1, name_en, autonym });
        proof {
            let read = rows_read(iso_table.spec_bytes(), autonyms_table.spec_bytes());
            assert forall|j: int| 0 <= j < records@.len() implies Some(
                #[trigger] record_views(records@)[j],
            ) == read[j] by {
                if j < i - 1 {
                    assert(record_views(records@)[j] == before[j]);
                }
            }
        }
        i += 1;
    }
    Ok(records)
}

} // verus!
