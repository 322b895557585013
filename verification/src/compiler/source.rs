//! The source file of the data: the languages, the records and the two
//! reverse indexes, written out as constants.

use vstd::prelude::*;
use vstd::string::StringExecFns;
use crate::compiler::hashing::HashIndex;
use crate::compiler::writing::{
    decimal, joined, lemma_joined_same, literal, write_decimal, write_joined, write_literal,
};
use crate::compiler::Table;
use crate::language::option_view;

verus! {

/// How the file of the data begins.
pub const TABLE_HEAD: &'static str =
    "//! The overview table: one record per language, in the order of the
//! three-letter codes, and the two reverse indexes built from it.
//!
//! A record's place in the table is the number of its [`Language`]
//! variant. A new record goes where its code sorts, and moves the records
//! behind it and their numbers with them.

use vstd::prelude::*;

verus! {

/// A language, named by its three-letter code.
///
/// There is one variant for each record of [`OVERVIEW`], in table order: the
/// number of a variant is the index of its record.
#[derive(Clone, Copy, PartialEq, Eq, Structural, Hash, Debug, Ord)]
pub enum Language {
";

/// What stands before the number of the records.
pub const COUNT_HEAD: &'static str =
    "}

/// The number of records in the table.
pub const LANGUAGE_COUNT: usize = ";

/// What stands before the length of the records.
pub const OVERVIEW_HEAD: &'static str =
    ";

/// The records: three-letter code, two-letter code, English name, English
/// name in lower case, autonym. A record without a two-letter code or
/// without an autonym holds the empty string in its place.
pub const OVERVIEW: [(&'static str, &'static str, &'static str, &'static str, &'static str); ";

/// What stands before the length of the languages.
pub const LANGUAGES_HEAD: &'static str = "];

/// The languages in table order.
pub const LANGUAGES: [Language; ";

/// What stands before the list of a constant.
pub const LIST_HEAD: &'static str = "] = [\n";

/// What stands behind the list of a constant.
pub const LIST_END: &'static str = "];\n\n";

/// What stands before the slots.
pub const SLOTS_HEAD: &'static str =
    "/// For each pair of letters, in the order `aa`, `ab`, ... `zz`: one more than
/// the index of the record with that two-letter code, or 0 where no record
/// has it.
pub const TWO_LETTER_SLOTS: [u16; 676] = [
";

/// How the file of the data ends.
pub const TABLE_END: &'static str = "];\n\n} // verus!\n";

/// The text of an optional field of a record.
pub open spec fn field(text: Option<Seq<char>>) -> Seq<char> {
    match text {
        Some(text) => text,
        None => Seq::empty(),
    }
}

impl<'a> Table<'a> {
    /// The line of the variant at place `i`.
    pub open spec fn variant_line(self, i: int) -> Seq<char> {
        "    "@ + self.variants@[i]@ + ",\n"@
    }

    /// The line of the record at place `i`.
    pub open spec fn record_line(self, i: int) -> Seq<char> {
        "    ("@ + literal(self.rows()[i].code_3) + ", "@ + literal(field(self.rows()[i].code_1))
            + ", "@ + literal(self.rows()[i].name_en) + ", "@ + literal(self.lowercase_names@[i]@)
            + ", "@ + literal(field(self.rows()[i].autonym)) + "),\n"@
    }

    /// The line of the language at place `i`.
    pub open spec fn language_line(self, i: int) -> Seq<char> {
        "    Language::"@ + self.variants@[i]@ + ",\n"@
    }

    /// The line of the entry at place `place` of the index over the
    /// two-letter codes.
    pub open spec fn two_letter_entry_line(self, place: int) -> Seq<char> {
        "    ("@ + literal(field(self.rows()[self.two_to_three.entries@[place] as int].code_1))
            + ", Language::"@ + self.variants@[self.two_to_three.entries@[place] as int]@
            + "),\n"@
    }

    /// The line of the entry at place `place` of the index over the
    /// three-letter codes.
    pub open spec fn three_letter_entry_line(self, place: int) -> Seq<char> {
        "    ("@ + literal(self.rows()[self.three_to_three.entries@[place] as int].code_3)
            + ", Language::"@ + self.variants@[self.three_to_three.entries@[place] as int]@
            + "),\n"@
    }

    /// The slot at place `slot`, with the space before it.
    pub open spec fn slot_cell(self, slot: int) -> Seq<char> {
        " "@ + decimal(self.two_letter_slots@[slot] as nat) + ","@
    }

    /// The line of the slots of the pairs with the first letter `letter`.
    pub open spec fn slot_line(self, letter: int) -> Seq<char> {
        "   "@ + joined(26, |second: int| self.slot_cell(letter * 26 + second)) + "\n"@
    }

    /// The constants of the index over the two-letter codes.
    pub open spec fn two_letter_index(self) -> Seq<char> {
        index_head(
            "TWO_TO_THREE"@,
            "two-letter codes"@,
            self.two_to_three,
        ) + joined(
            self.two_to_three.entries@.len(),
            |place: int| self.two_letter_entry_line(place),
        ) + LIST_END@
    }

    /// The constants of the index over the three-letter codes.
    pub open spec fn three_letter_index(self) -> Seq<char> {
        index_head(
            "THREE_TO_THREE"@,
            "three-letter codes"@,
            self.three_to_three,
        ) + joined(
            self.three_to_three.entries@.len(),
            |place: int| self.three_letter_entry_line(place),
        ) + LIST_END@
    }

    /// The file of the data.
    pub open spec fn source(self) -> Seq<char> {
        TABLE_HEAD@ + joined(self.records@.len(), |i: int| self.variant_line(i)) + COUNT_HEAD@
            + decimal(self.records@.len()) + OVERVIEW_HEAD@ + decimal(self.records@.len())
            + LIST_HEAD@ + joined(self.records@.len(), |i: int| self.record_line(i))
            + LANGUAGES_HEAD@ + decimal(self.records@.len()) + LIST_HEAD@ + joined(
            self.records@.len(),
            |i: int| self.language_line(i),
        ) + LIST_END@ + self.two_letter_index() + self.three_letter_index() + SLOTS_HEAD@ + joined(
            26,
            |letter: int| self.slot_line(letter),
        ) + TABLE_END@
    }
}

/// The line of the displacement at place `i` of `index`.
pub open spec fn displacement_line(index: HashIndex, i: int) -> Seq<char> {
    "    ("@ + decimal(index.disps@[i].0 as nat) + ", "@ + decimal(index.disps@[i].1 as nat)
        + "),\n"@
}

/// The constants of `index` up to the list of its entries, where `name` is
/// the name of the index and `what` says what it is over.
pub open spec fn index_head(name: Seq<char>, what: Seq<char>, index: HashIndex) -> Seq<char> {
    "/// The hash key of the perfect hash over the "@ + what + ".\npub const "@ + name
        + "_KEY: u64 = "@ + decimal(index.key as nat)
        + ";\n\n/// The displacements of the perfect hash over the "@ + what + ".\npub const "@
        + name + "_DISPS: [(u32, u32); "@ + decimal(index.disps@.len()) + LIST_HEAD@ + joined(
        index.disps@.len(),
        |i: int| displacement_line(index, i),
    ) + LIST_END@ + "/// The "@ + what
        + " with their languages, each at the place its code hashes to.\npub const "@ + name
        + ": [(&'static str, Language); "@ + decimal(index.entries@.len()) + LIST_HEAD@
}

/// Writes the constants of `index` up to the list of its entries.
pub fn write_index_head(name: &str, what: &str, index: &HashIndex) -> (text: String)
    ensures
        text@ == index_head(name@, what@, *index),
{
    let mut lines: Vec<String> = Vec::new();
    let mut i: usize = 0;
    while i < index.disps.len()
        invariant
            i <= index.disps@.len(),
            lines@.len() == i,
            forall|k: int| 0 <= k < i ==> (#[trigger] lines@[k])@ == displacement_line(*index, k),
        decreases index.disps@.len() - i,
    {
        let mut line = String::from_str("    (");
        line.append(write_decimal(index.disps[i].0 as u64).as_str());
        line.append(", ");
        line.append(write_decimal(index.disps[i].1 as u64).as_str());
        line.append("),\n");
        lines.push(line);
        i += 1;
    }
    let list = write_joined(&lines);
    proof {
        lemma_joined_same(
            lines@.len(),
            |i: int| lines@[i]@,
            |i: int| displacement_line(*index, i),
        );
    }
    let mut text = String::from_str("/// The hash key of the perfect hash over the ");
    text.append(what);
    text.append(".\npub const ");
    text.append(name);
    text.append("_KEY: u64 = ");
    text.append(write_decimal(index.key).as_str());
    text.append(";\n\n/// The displacements of the perfect hash over the ");
    text.append(what);
    text.append(".\npub const ");
    text.append(name);
    text.append("_DISPS: [(u32, u32); ");
    text.append(write_decimal(index.disps.len() as u64).as_str());
    text.append(LIST_HEAD);
    text.append(list.as_str());
    text.append(LIST_END);
    text.append("/// The ");
    text.append(what);
    text.append(" with their languages, each at the place its code hashes to.\npub const ");
    text.append(name);
    text.append(": [(&'static str, Language); ");
    text.append(write_decimal(index.entries.len() as u64).as_str());
    text.append(LIST_HEAD);
    text
}

/// The text of an optional field of a record.
fn field_of<'a>(text: Option<&'a str>) -> (r: &'a str)
    ensures
        r@ == field(option_view(text)),
{
    proof {
        reveal_strlit("");
        assert(""@ =~= Seq::<char>::empty());
    }
    match text {
        Some(text) => text,
        None => "",
    }
}

impl<'a> Table<'a> {
    /// Writes the lines of the variants.
    fn write_variants(&self) -> (text: String)
        requires
            self.is_complete(),
        ensures
            text@ == joined(self.records@.len(), |i: int| self.variant_line(i)),
    {
        let mut lines: Vec<String> = Vec::new();
        let mut i: usize = 0;
        while i < self.records.len()
            invariant
                i <= self.records@.len(),
                self.variants@.len() == self.records@.len(),
                lines@.len() == i,
                forall|k: int| 0 <= k < i ==> (#[trigger] lines@[k])@ == self.variant_line(k),
            decreases self.records@.len() - i,
        {
            let mut line = String::from_str("    ");
            line.append(self.variants[i].as_str());
            line.append(",\n");
            lines.push(line);
            i += 1;
        }
        let text = write_joined(&lines);
        proof {
            lemma_joined_same(lines@.len(), |i: int| lines@[i]@, |i: int| self.variant_line(i));
        }
        text
    }

    /// Writes the lines of the languages.
    fn write_languages(&self) -> (text: String)
        requires
            self.is_complete(),
        ensures
            text@ == joined(self.records@.len(), |i: int| self.language_line(i)),
    {
        let mut lines: Vec<String> = Vec::new();
        let mut i: usize = 0;
        while i < self.records.len()
            invariant
                i <= self.records@.len(),
                self.variants@.len() == self.records@.len(),
                lines@.len() == i,
                forall|k: int| 0 <= k < i ==> (#[trigger] lines@[k])@ == self.language_line(k),
            decreases self.records@.len() - i,
        {
            let mut line = String::from_str("    Language::");
            line.append(self.variants[i].as_str());
            line.append(",\n");
            lines.push(line);
            i += 1;
        }
        let text = write_joined(&lines);
        proof {
            lemma_joined_same(lines@.len(), |i: int| lines@[i]@, |i: int| self.language_line(i));
        }
        text
    }

    /// Writes the lines of the records.
    fn write_records(&self) -> (text: String)
        requires
            self.is_complete(),
        ensures
            text@ == joined(self.records@.len(), |i: int| self.record_line(i)),
    {
        let mut lines: Vec<String> = Vec::new();
        let mut i: usize = 0;
        while i < self.records.len()
            invariant
                i <= self.records@.len(),
                self.lowercase_names@.len() == self.records@.len(),
                lines@.len() == i,
                forall|k: int| 0 <= k < i ==> (#[trigger] lines@[k])@ == self.record_line(k),
            decreases self.records@.len() - i,
        {
            let record = &self.records[i];
            proof {
                assert(self.rows()[i as int] == self.records@[i as int]@);
            }
            let mut line = String::from_str("    (");
            line.append(write_literal(record.code_3).as_str());
            line.append(", ");
            line.append(write_literal(field_of(record.code_1)).as_str());
            line.append(", ");
            line.append(write_literal(record.name_en).as_str());
            line.append(", ");
            line.append(write_literal(self.lowercase_names[i].as_str()).as_str());
            line.append(", ");
            line.append(write_literal(field_of(record.autonym)).as_str());
            line.append("),\n");
            lines.push(line);
            i += 1;
        }
        let text = write_joined(&lines);
        proof {
            lemma_joined_same(lines@.len(), |i: int| lines@[i]@, |i: int| self.record_line(i));
        }
        text
    }

    /// Writes the constants of the index over the two-letter codes.
    fn write_two_letter_index(&self) -> (text: String)
        requires
            self.is_complete(),
        ensures
            text@ == self.two_letter_index(),
    {
        let index = &self.two_to_three;
        let mut lines: Vec<String> = Vec::new();
        let mut place: usize = 0;
        while place < index.entries.len()
            invariant
                place <= index.entries@.len(),
                index == &self.two_to_three,
                self.is_complete(),
                lines@.len() == place,
                forall|k: int|
                    0 <= k < place ==> (#[trigger] lines@[k])@ == self.two_letter_entry_line(k),
            decreases index.entries@.len() - place,
        {
            let owner = index.entries[place];
            proof {
                assert(self.two_to_three.entries@[place as int] < self.rows().len());
                assert(self.rows()[owner as int] == self.records@[owner as int]@);
            }
            let mut line = String::from_str("    (");
            line.append(write_literal(field_of(self.records[owner].code_1)).as_str());
            line.append(", Language::");
            line.append(self.variants[owner].as_str());
            line.append("),\n");
            lines.push(line);
            place += 1;
        }
        let list = write_joined(&lines);
        proof {
            lemma_joined_same(
                lines@.len(),
                |i: int| lines@[i]@,
                |place: int| self.two_letter_entry_line(place),
            );
        }
        let mut text = write_index_head("TWO_TO_THREE", "two-letter codes", index);
        text.append(list.as_str());
        text.append(LIST_END);
        text
    }

    /// Writes the constants of the index over the three-letter codes.
    fn write_three_letter_index(&self) -> (text: String)
        requires
            self.is_complete(),
        ensures
            text@ == self.three_letter_index(),
    {
        let index = &self.three_to_three;
        let mut lines: Vec<String> = Vec::new();
        let mut place: usize = 0;
        while place < index.entries.len()
            invariant
                place <= index.entries@.len(),
                index == &self.three_to_three,
                self.is_complete(),
                lines@.len() == place,
                forall|k: int|
                    0 <= k < place ==> (#[trigger] lines@[k])@ == self.three_letter_entry_line(k),
            decreases index.entries@.len() - place,
        {
            let owner = index.entries[place];
            proof {
                assert(self.three_to_three.entries@[place as int] < self.rows().len());
                assert(self.rows()[owner as int] == self.records@[owner as int]@);
            }
            let mut line = String::from_str("    (");
            line.append(write_literal(self.records[owner].code_3).as_str());
            line.append(", Language::");
            line.append(self.variants[owner].as_str());
            line.append("),\n");
            lines.push(line);
            place += 1;
        }
        let list = write_joined(&lines);
        proof {
            lemma_joined_same(
                lines@.len(),
                |i: int| lines@[i]@,
                |place: int| self.three_letter_entry_line(place),
            );
        }
        let mut text = write_index_head("THREE_TO_THREE", "three-letter codes", index);
        text.append(list.as_str());
        text.append(LIST_END);
        text
    }

    /// Writes the line of the slots of the pairs with the first letter
    /// `letter`.
    fn write_slot_line(&self, letter: usize) -> (text: String)
        requires
            self.is_complete(),
            letter < 26,
        ensures
            text@ == self.slot_line(letter as int),
    {
        let mut cells: Vec<String> = Vec::new();
        let mut second: usize = 0;
        while second < 26
            invariant
                second <= 26,
                letter < 26,
                self.two_letter_slots@.len() == 676,
                cells@.len() == second,
                forall|k: int|
                    0 <= k < second ==> (#[trigger] cells@[k])@ == self.slot_cell(letter * 26 + k),
            decreases 26 - second,
        {
            let mut cell = String::from_str(" ");
            cell.append(write_decimal(self.two_letter_slots[letter * 26 + second] as u64).as_str());
            cell.append(",");
            cells.push(cell);
            second += 1;
        }
        let row = write_joined(&cells);
        proof {
            lemma_joined_same(
                cells@.len(),
                |i: int| cells@[i]@,
                |second: int| self.slot_cell(letter * 26 + second),
            );
        }
        let mut text = String::from_str("   ");
        text.append(row.as_str());
        text.append("\n");
        text
    }

    /// Writes the lines of the slots.
    fn write_slots(&self) -> (text: String)
        requires
            self.is_complete(),
        ensures
            text@ == joined(26, |letter: int| self.slot_line(letter)),
    {
        let mut lines: Vec<String> = Vec::new();
        let mut letter: usize = 0;
        while letter < 26
            invariant
                letter <= 26,
                self.is_complete(),
                lines@.len() == letter,
                forall|k: int| 0 <= k < letter ==> (#[trigger] lines@[k])@ == self.slot_line(k),
            decreases 26 - letter,
        {
            lines.push(self.write_slot_line(letter));
            letter += 1;
        }
        let text = write_joined(&lines);
        proof {
            lemma_joined_same(lines@.len(), |i: int| lines@[i]@, |letter: int| self.slot_line(letter));
        }
        text
    }

    /// Writes the file of the data.
    pub fn write_source(&self) -> (text: String)
        requires
            self.is_complete(),
        ensures
            text@ == self.source(),
    {
        let count = write_decimal(self.records.len() as u64);
        let mut text = String::from_str(TABLE_HEAD);
        text.append(self.write_variants().as_str());
        text.append(COUNT_HEAD);
        text.append(count.as_str());
        text.append(OVERVIEW_HEAD);
        text.append(count.as_str());
        text.append(LIST_HEAD);
        text.append(self.write_records().as_str());
        text.append(LANGUAGES_HEAD);
        text.append(count.as_str());
        text.append(LIST_HEAD);
        text.append(self.write_languages().as_str());
        text.append(LIST_END);
        text.append(self.write_two_letter_index().as_str());
        text.append(self.write_three_letter_index().as_str());
        text.append(SLOTS_HEAD);
        text.append(self.write_slots().as_str());
        text.append(TABLE_END);
        text
    }
}

} // verus!
