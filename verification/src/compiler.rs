//! The table compiler: from the registry of the codes and the list of the
//! autonyms, both as tab-separated text, to the records of the overview
//! table and its reverse indexes.

use vstd::prelude::*;
use vstd::string::StringSliceAdditionalSpecFns;
use crate::compiler::checks::{check, slots_hold, well_formed, TableError};
use crate::compiler::hashing::{build_index, HashIndex};
use crate::compiler::proofs::{order_source, write_order};
use crate::compiler::records::{
    is_first_short_row, is_read_from, read_iso_table, record_views, LangCode, Record,
};
use crate::compiler::variants::{lowercase, title, title_of, to_lowercase};

pub mod checks;
pub mod hashing;
pub mod names;
pub mod proofs;
pub mod records;
pub mod rows;
pub mod source;
pub mod variants;
pub mod writing;

verus! {

/// The overview table with its reverse indexes, ready to be written out.
#[derive(Debug)]
pub struct Table<'a> {
    /// The records, in the order of the rows of the registry.
    pub records: Vec<LangCode<'a>>,
    /// The name of the variant of each record.
    pub variants: Vec<String>,
    /// The English name of each record in lower case.
    pub lowercase_names: Vec<String>,
    /// The slots of the two-letter codes.
    pub two_letter_slots: Vec<u16>,
    /// The perfect hash from the two-letter codes to the records.
    pub two_to_three: HashIndex,
    /// The perfect hash from the three-letter codes to the records.
    pub three_to_three: HashIndex,
}

/// Why the datasets do not give a table.
#[derive(Debug, PartialEq, Eq)]
pub enum CompileError {
    /// A row of the registry has no name field.
    MissingColumn { row: usize },
    /// The records of the registry cannot be the overview table.
    Table(TableError),
}

/// Whether `variants` names each of `records` by its three-letter code with
/// a capital.
pub open spec fn names_variants(variants: Seq<String>, records: Seq<Record>) -> bool {
    &&& variants.len() == records.len()
    &&& forall|i: int|
        0 <= i < records.len() ==> (#[trigger] variants[i])@ == title_of(records[i].code_3)
}

/// Whether `names` holds the English name of each of `records` in lower
/// case.
pub open spec fn names_lowercase(names: Seq<String>, records: Seq<Record>) -> bool {
    &&& names.len() == records.len()
    &&& forall|i: int|
        0 <= i < records.len() ==> (#[trigger] names[i])@ == lowercase(records[i].name_en)
}

/// Whether `index` answers each three-letter code of `records` with the
/// place of its record, and holds nothing but places of records.
pub open spec fn finds_codes_3(index: HashIndex, records: Seq<Record>) -> bool {
    &&& forall|i: int|
        0 <= i < records.len() ==> index.answer(#[trigger] records[i].code_3) == Some(i)
    &&& forall|place: int|
        0 <= place < index.entries@.len() ==> #[trigger] index.entries@[place] < records.len()
}

/// Whether `index` answers each two-letter code of `records` with the place
/// of its record, and holds nothing but places of records with such a code.
pub open spec fn finds_codes_1(index: HashIndex, records: Seq<Record>) -> bool {
    &&& forall|i: int|
        0 <= i < records.len() ==> (#[trigger] records[i].code_1 matches Some(code)
            ==> index.answer(code) == Some(i))
    &&& forall|place: int|
        0 <= place < index.entries@.len() ==> #[trigger] index.entries@[place] < records.len()
            && records[index.entries@[place] as int].code_1 is Some
}

impl<'a> Table<'a> {
    /// The records of this table, as text.
    pub open spec fn rows(self) -> Seq<Record> {
        record_views(self.records@)
    }

    /// Whether this table can be the overview table of the library: its
    /// records are well formed, each has the name of its variant and its
    /// name in lower case, each two-letter code has its slot, and each code
    /// is found by its index.
    pub open spec fn is_complete(self) -> bool {
        &&& well_formed(self.rows())
        &&& names_variants(self.variants@, self.rows())
        &&& names_lowercase(self.lowercase_names@, self.rows())
        &&& slots_hold(self.two_letter_slots@, self.rows())
        &&& finds_codes_1(self.two_to_three, self.rows())
        &&& finds_codes_3(self.three_to_three, self.rows())
    }
}

/// The names of the variants of `records`.
fn name_variants(records: &Vec<LangCode>) -> (variants: Vec<String>)
    ensures
        names_variants(variants@, record_views(records@)),
{
    let mut variants: Vec<String> = Vec::new();
    let mut i: usize = 0;
    while i < records.len()
        invariant
            i <= records@.len(),
            variants@.len() == i,
            forall|k: int|
                0 <= k < i ==> (#[trigger] variants@[k])@ == title_of(
                    record_views(records@)[k].code_3,
                ),
        decreases records@.len() - i,
    {
        variants.push(title(records[i].code_3));
        i += 1;
    }
    variants
}

/// The English names of `records` in lower case.
fn lowercase_names(records: &Vec<LangCode>) -> (names: Vec<String>)
    ensures
        names_lowercase(names@, record_views(records@)),
{
    let mut names: Vec<String> = Vec::new();
    let mut i: usize = 0;
    while i < records.len()
        invariant
            i <= records@.len(),
            names@.len() == i,
            forall|k: int|
                0 <= k < i ==> (#[trigger] names@[k])@ == lowercase(
                    record_views(records@)[k].name_en,
                ),
        decreases records@.len() - i,
    {
        names.push(to_lowercase(records[i].name_en));
        i += 1;
    }
    names
}

/// The perfect hash from the three-letter codes of `records` to their
/// places.
fn index_codes_3(records: &Vec<LangCode>) -> (index: HashIndex)
    requires
        well_formed(record_views(records@)),
    ensures
        finds_codes_3(index, record_views(records@)),
{
    let ghost table = record_views(records@);
    let mut codes: Vec<&str> = Vec::new();
    let mut owners: Vec<usize> = Vec::new();
    let mut i: usize = 0;
    while i < records.len()
        invariant
            i <= records@.len(),
            table == record_views(records@),
            codes@.len() == i,
            owners@.len() == i,
            forall|k: int| 0 <= k < i ==> (#[trigger] codes@[k])@ == table[k].code_3,
            forall|k: int| 0 <= k < i ==> #[trigger] owners@[k] == k,
        decreases records@.len() - i,
    {
        codes.push(records[i].code_3);
        owners.push(i);
        i += 1;
    }
    proof {
        assert forall|a: int, b: int| 0 <= a < b < codes@.len() implies codes@[a]@
            != codes@[b]@ by {
            assert(crate::text::code_key(table[a].code_3) < crate::text::code_key(table[b].code_3));
        }
    }
    let index = build_index(&codes, &owners);
    proof {
        assert forall|k: int| 0 <= k < table.len() implies index.answer(
            #[trigger] table[k].code_3,
        ) == Some(k) by {
            assert(index.answer(codes@[k]@) == Some(owners@[k] as int));
        }
        assert forall|place: int| 0 <= place < index.entries@.len() implies #[trigger] index.entries@[place]
            < table.len() by {
            let owner = index.entries@[place];
            assert(owners@.contains(owner));
            let k = choose|k: int| 0 <= k < owners@.len() && owners@[k] == owner;
            assert(owners@[k] == k);
        }
    }
    index
}

/// The perfect hash from the two-letter codes of `records` to the places of
/// their records.
fn index_codes_1(records: &Vec<LangCode>) -> (index: HashIndex)
    requires
        well_formed(record_views(records@)),
    ensures
        finds_codes_1(index, record_views(records@)),
{
    let ghost table = record_views(records@);
    let mut codes: Vec<&str> = Vec::new();
    let mut owners: Vec<usize> = Vec::new();
    let mut i: usize = 0;
    while i < records.len()
        invariant
            i <= records@.len(),
            table == record_views(records@),
            codes@.len() == owners@.len(),
            forall|k: int|
                0 <= k < owners@.len() ==> #[trigger] owners@[k] < i && table[owners@[k] as int].code_1
                    == Some(codes@[k]@),
            forall|a: int, b: int|
                0 <= a < b < owners@.len() ==> #[trigger] owners@[a] < #[trigger] owners@[b],
            forall|r: int|
                0 <= r < i && (#[trigger] table[r].code_1) is Some ==> exists|k: int|
                    0 <= k < owners@.len() && #[trigger] owners@[k] == r,
        decreases records@.len() - i,
    {
        proof {
            assert(table[i as int] == records@[i as int]@);
        }
        let ghost old_owners = owners@;
        match records[i].code_1 {
            Some(code) => {
                codes.push(code);
                owners.push(i);
                proof {
                    assert forall|r: int| 0 <= r < i + 1 && (#[trigger] table[r].code_1)
                        is Some implies exists|k: int|
                        0 <= k < owners@.len() && #[trigger] owners@[k] == r by {
                        if r < i {
                            let k = choose|k: int|
                                0 <= k < old_owners.len() && #[trigger] old_owners[k] == r;
                            assert(owners@[k] == r);
                        } else {
                            assert(owners@[old_owners.len() as int] == r);
                        }
                    }
                }
            },
            None => {},
        }
        i += 1;
    }
    proof {
        assert forall|a: int, b: int| 0 <= a < b < codes@.len() implies codes@[a]@
            != codes@[b]@ by {
            let x = owners@[a] as int;
            let y = owners@[b] as int;
            assert(x < y);
            assert(table[x].code_1 is Some);
            assert(table[x].code_1 != table[y].code_1);
        }
    }
    let index = build_index(&codes, &owners);
    proof {
        assert forall|r: int| 0 <= r < table.len() implies (#[trigger] table[r].code_1 matches Some(
            code,
        ) ==> index.answer(code) == Some(r)) by {
            if table[r].code_1 is Some {
                let k = choose|k: int| 0 <= k < owners@.len() && #[trigger] owners@[k] == r;
                assert(index.answer(codes@[k]@) == Some(owners@[k] as int));
            }
        }
        assert forall|place: int| 0 <= place < index.entries@.len() implies #[trigger] index.entries@[place]
            < table.len() && table[index.entries@[place] as int].code_1 is Some by {
            let owner = index.entries@[place];
            assert(owners@.contains(owner));
            let k = choose|k: int| 0 <= k < owners@.len() && owners@[k] == owner;
            assert(table[owners@[k] as int].code_1 == Some(codes@[k]@));
        }
    }
    index
}

/// The source files of the table.
#[derive(Debug, PartialEq, Eq)]
pub struct Sources {
    /// The file of the data.
    pub table: String,
    /// The file on the names.
    pub names: String,
    /// The file on the order of the languages.
    pub order: String,
    /// The file on the three-letter codes.
    pub three_letter: String,
    /// The file on the two-letter codes.
    pub two_letter: String,
}

impl Sources {
    /// Whether these are the source files of `table`.
    pub open spec fn are_of(self, table: Table) -> bool {
        &&& self.table@ == table.source()
        &&& self.names@ == table.names_source()
        &&& self.order@ == order_source(table.records@.len())
        &&& self.three_letter@ == table.three_letter_source()
        &&& self.two_letter@ == table.two_letter_source()
    }
}

impl<'a> Table<'a> {
    /// Writes the source files of this table.
    pub fn write_sources(&self) -> (sources: Sources)
        requires
            self.is_complete(),
        ensures
            sources.are_of(*self),
    {
        Sources {
            table: self.write_source(),
            names: self.write_names(),
            order: write_order(self.records.len()),
            three_letter: self.write_three_letter(),
            two_letter: self.write_two_letter(),
        }
    }
}

/// Compiles the overview table from the registry of the codes and the list
/// of the autonyms, and writes its source files.
///
/// The table and the files come back where `compile` gives a table, and its
/// error where it gives none.
pub fn generate<'a>(iso_table: &'a str, autonyms_table: &'a str) -> (r: Result<
    (Table<'a>, Sources),
    CompileError,
>)
    ensures
        match r {
            Ok((table, sources)) => is_read_from(
                table.rows(),
                iso_table.spec_bytes(),
                autonyms_table.spec_bytes(),
            ) && table.is_complete() && sources.are_of(table),
            Err(CompileError::MissingColumn { row }) => is_first_short_row(
                row as int,
                iso_table.spec_bytes(),
                autonyms_table.spec_bytes(),
            ),
            Err(CompileError::Table(e)) => exists|records: Seq<Record>|
                #[trigger] is_read_from(
                    records,
                    iso_table.spec_bytes(),
                    autonyms_table.spec_bytes(),
                ) && e.holds_of(records),
        },
{
    match compile(iso_table, autonyms_table) {
        Ok(table) => {
            let sources = table.write_sources();
            Ok((table, sources))
        },
        Err(e) => Err(e),
    }
}

/// Compiles the overview table from the registry of the codes and the list
/// of the autonyms.
///
/// The records are what the rows of the registry say, in their order, each
/// with the autonym that the list gives for its three-letter code. The
/// table comes back only if it is complete. If a row of the registry has no
/// name field, the first such row is named; if the records cannot be the
/// overview table, their first fault is.
pub fn compile<'a>(iso_table: &'a str, autonyms_table: &'a str) -> (r: Result<
    Table<'a>,
    CompileError,
>)
    ensures
        match r {
            Ok(table) => is_read_from(
                table.rows(),
                iso_table.spec_bytes(),
                autonyms_table.spec_bytes(),
            ) && table.is_complete(),
            Err(CompileError::MissingColumn { row }) => is_first_short_row(
                row as int,
                iso_table.spec_bytes(),
                autonyms_table.spec_bytes(),
            ),
            Err(CompileError::Table(e)) => exists|records: Seq<Record>|
                #[trigger] is_read_from(
                    records,
                    iso_table.spec_bytes(),
                    autonyms_table.spec_bytes(),
                ) && e.holds_of(records),
        },
{
    let records = match read_iso_table(iso_table, autonyms_table) {
        Ok(records) => records,
        Err(missing) => {
            return Err(CompileError::MissingColumn { row: missing.row });
        },
    };
    let two_letter_slots = match check(&records) {
        Ok(slots) => slots,
        Err(e) => {
            return Err(CompileError::Table(e));
        },
    };
    let variants = name_variants(&records);
    let lowercase_names = lowercase_names(&records);
    let two_to_three = index_codes_1(&records);
    let three_to_three = index_codes_3(&records);
    Ok(
        Table {
            records,
            variants,
            lowercase_names,
            two_letter_slots,
            two_to_three,
            three_to_three,
        },
    )
}

} // verus!
