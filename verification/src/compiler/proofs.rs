//! The source files of the facts: what holds of the data, written out so
//! that it is proved record by record.

use vstd::prelude::*;
use vstd::string::{StrSliceExecFns, StringExecFns};
use crate::compiler::writing::{
    decimal, joined, lemma_joined_same, literal, write_decimal, write_joined, write_literal,
};
use crate::compiler::Table;

verus! {

/// How many languages one lemma on the order of the languages covers.
pub const CHUNK: usize = 34;

/// How the file on the order of the languages begins.
pub const ORDER_HEAD: &'static str =
    "//! The languages of the table stand in the order of their numbers.

use vstd::prelude::*;
use crate::overview::language_at;
use crate::table::LANGUAGE_COUNT;

verus! {

";

/// What stands between the lemmas on the order of the languages and the
/// cases of the lemma that joins them.
pub const ORDER_LEMMA: &'static str =
    "/// The language at each place of the table has that place as its number.
pub proof fn lemma_languages_in_order()
    ensures
        forall|i: int| 0 <= i < LANGUAGE_COUNT ==> (#[trigger] language_at(i)) as int == i,
{
    assert forall|i: int| 0 <= i < LANGUAGE_COUNT implies (#[trigger] language_at(i)) as int == i by {
";

/// How the file on the order of the languages ends.
pub const ORDER_END: &'static str = "    }\n}\n\n} // verus!\n";

/// How the file on the three-letter codes begins.
pub const THREE_LETTER_HEAD: &'static str =
    "//! The three-letter codes of the table, read letter by letter.

use vstd::prelude::*;
use crate::overview::code_3_at;
use crate::table::LANGUAGE_COUNT;
use crate::text::{all_lower_letters, code_key};

verus! {

/// Every three-letter code of the table is three letters `a` to `z`, and the
/// codes stand in strictly increasing order.
pub proof fn lemma_three_letter_codes()
    ensures
        forall|i: int|
            0 <= i < LANGUAGE_COUNT ==> (#[trigger] code_3_at(i)).len() == 3 && all_lower_letters(
                code_3_at(i),
            ),
        forall|i: int|
            0 <= i < LANGUAGE_COUNT - 1 ==> code_key(#[trigger] code_3_at(i)) < code_key(
                code_3_at(i + 1),
            ),
{
    reveal(code_3_at);
";

/// How the file on the two-letter codes begins.
pub const TWO_LETTER_HEAD: &'static str =
    "//! The two-letter codes of the table, read letter by letter.

use vstd::prelude::*;
use crate::overview::{code_1_at, two_letter_slot_at};
use crate::table::LANGUAGE_COUNT;
use crate::text::{all_lower_letters, two_letter_slot};

verus! {

/// Every two-letter code of the table is empty or two letters `a` to `z`, and
/// the slot of a code that is not empty holds the place of its record.
pub proof fn lemma_two_letter_codes()
    ensures
        forall|i: int|
            0 <= i < LANGUAGE_COUNT ==> (#[trigger] code_1_at(i)).len() == 0 || {
                &&& code_1_at(i).len() == 2
                &&& all_lower_letters(code_1_at(i))
                &&& two_letter_slot_at(two_letter_slot(code_1_at(i))) == i + 1
            },
{
    reveal(code_1_at);
    reveal(two_letter_slot_at);
    reveal_strlit(\"\");
";

/// How the file on the names begins.
pub const NAMES_HEAD: &'static str =
    "//! The names of the table, measured one by one.

use vstd::prelude::*;
use crate::overview::name_at;
use crate::table::LANGUAGE_COUNT;

verus! {

/// Every record of the table has a name.
pub proof fn lemma_names()
    ensures
        forall|i: int| 0 <= i < LANGUAGE_COUNT ==> (#[trigger] name_at(i)).len() > 0,
{
    reveal(name_at);
";

/// How a file with one lemma ends.
pub const LEMMA_END: &'static str = "}\n\n} // verus!\n";

/// The characters of `code` as the elements of a sequence: each between
/// quotes, with a comma and a space between them.
pub open spec fn letters(code: Seq<char>) -> Seq<char>
    decreases code.len(),
{
    if code.len() == 0 {
        Seq::empty()
    } else if code.len() == 1 {
        "'"@ + code + "'"@
    } else {
        letters(code.drop_last()) + ", '"@ + seq![code.last()] + "'"@
    }
}

/// How many lemmas cover `count` languages.
pub open spec fn chunk_count(count: nat) -> nat {
    ((count + CHUNK - 1) / (CHUNK as int)) as nat
}

/// The place behind the last language of the chunk at place `chunk`.
pub open spec fn chunk_end(count: nat, chunk: int) -> nat {
    if (chunk + 1) * CHUNK < count {
        ((chunk + 1) * CHUNK) as nat
    } else {
        count
    }
}

/// The lemma on the languages of the chunk at place `chunk`.
pub open spec fn chunk_lemma(count: nat, chunk: int) -> Seq<char> {
    "proof fn lemma_languages_in_order_from_"@ + decimal((chunk * CHUNK) as nat)
        + "(i: int)\n    requires\n        "@ + decimal((chunk * CHUNK) as nat) + " <= i < "@
        + decimal(chunk_end(count, chunk))
        + ",\n    ensures\n        language_at(i) as int == i,\n{\n    reveal(language_at);\n}\n\n"@
}

/// The case of the chunk at place `chunk` in the lemma on all languages.
pub open spec fn chunk_case(count: nat, chunk: int) -> Seq<char> {
    "        if "@ + decimal((chunk * CHUNK) as nat) + " <= i < "@ + decimal(
        chunk_end(count, chunk),
    ) + " {\n            lemma_languages_in_order_from_"@ + decimal((chunk * CHUNK) as nat)
        + "(i);\n        }\n"@
}

/// The file on the order of `count` languages.
pub open spec fn order_source(count: nat) -> Seq<char> {
    ORDER_HEAD@ + joined(chunk_count(count), |chunk: int| chunk_lemma(count, chunk))
        + ORDER_LEMMA@ + joined(chunk_count(count), |chunk: int| chunk_case(count, chunk))
        + ORDER_END@
}

impl<'a> Table<'a> {
    /// The lines on the three-letter code of the record at place `i`.
    pub open spec fn three_letter_lines(self, i: int) -> Seq<char> {
        "    reveal_strlit("@ + literal(self.rows()[i].code_3) + ");\n    assert(code_3_at("@
            + decimal(i as nat) + ") =~= seq!["@ + letters(self.rows()[i].code_3) + "]);\n"@
    }

    /// The lines on the two-letter code of the record at place `i`: none
    /// where it has no such code.
    pub open spec fn two_letter_lines(self, i: int) -> Seq<char> {
        match self.rows()[i].code_1 {
            Some(code) => "    reveal_strlit("@ + literal(code) + ");\n    assert(code_1_at("@
                + decimal(i as nat) + ") =~= seq!["@ + letters(code) + "]);\n"@,
            None => Seq::empty(),
        }
    }

    /// The lines on the name of the record at place `i`.
    pub open spec fn name_lines(self, i: int) -> Seq<char> {
        "    reveal_strlit("@ + literal(self.rows()[i].name_en) + ");\n    assert(name_at("@
            + decimal(i as nat) + ").len() == "@ + decimal(self.rows()[i].name_en.len())
            + ");\n"@
    }

    /// The file on the three-letter codes.
    pub open spec fn three_letter_source(self) -> Seq<char> {
        THREE_LETTER_HEAD@ + joined(self.records@.len(), |i: int| self.three_letter_lines(i))
            + LEMMA_END@
    }

    /// The file on the two-letter codes.
    pub open spec fn two_letter_source(self) -> Seq<char> {
        TWO_LETTER_HEAD@ + joined(self.records@.len(), |i: int| self.two_letter_lines(i))
            + LEMMA_END@
    }

    /// The file on the names.
    pub open spec fn names_source(self) -> Seq<char> {
        NAMES_HEAD@ + joined(self.records@.len(), |i: int| self.name_lines(i)) + LEMMA_END@
    }
}

/// Writes the characters of `code` as the elements of a sequence.
pub fn write_letters(code: &str) -> (text: String)
    ensures
        text@ == letters(code@),
{
    let len = code.unicode_len();
    let mut text = String::new();
    let mut i: usize = 0;
    proof {
        assert(code@.take(0) =~= Seq::<char>::empty());
    }
    while i < len
        invariant
            i <= len,
            len == code@.len(),
            text@ == letters(code@.take(i as int)),
        decreases len - i,
    {
        proof {
            assert(code@.take(i + 1).drop_last() =~= code@.take(i as int));
            assert(code@.subrange(i as int, i + 1) =~= seq![code@.take(i + 1).last()]);
            if i == 0 {
                assert(code@.take(1) =~= seq![code@[0]]);
            }
        }
        if i == 0 {
            text.append("'");
        } else {
            text.append(", '");
        }
        text.append(code.substring_char(i, i + 1));
        text.append("'");
        i += 1;
    }
    proof {
        assert(code@.take(len as int) =~= code@);
    }
    text
}

/// Writes the file on the order of `count` languages.
pub fn write_order(count: usize) -> (text: String)
    requires
        count < u16::MAX,
    ensures
        text@ == order_source(count as nat),
{
    let chunks = (count + CHUNK - 1) / CHUNK;
    let mut lemmas: Vec<String> = Vec::new();
    let mut cases: Vec<String> = Vec::new();
    let mut chunk: usize = 0;
    while chunk < chunks
        invariant
            chunk <= chunks,
            chunks == chunk_count(count as nat),
            count < u16::MAX,
            lemmas@.len() == chunk,
            cases@.len() == chunk,
            forall|k: int|
                0 <= k < chunk ==> (#[trigger] lemmas@[k])@ == chunk_lemma(count as nat, k),
            forall|k: int| 0 <= k < chunk ==> (#[trigger] cases@[k])@ == chunk_case(count as nat, k),
        decreases chunks - chunk,
    {
        let from = chunk * CHUNK;
        let to = if from + CHUNK < count {
            from + CHUNK
        } else {
            count
        };
        let start = write_decimal(from as u64);
        let end = write_decimal(to as u64);
        let mut lemma = String::from_str("proof fn lemma_languages_in_order_from_");
        lemma.append(start.as_str());
        lemma.append("(i: int)\n    requires\n        ");
        lemma.append(start.as_str());
        lemma.append(" <= i < ");
        lemma.append(end.as_str());
        lemma.append(
            ",\n    ensures\n        language_at(i) as int == i,\n{\n    reveal(language_at);\n}\n\n",
        );
        lemmas.push(lemma);
        let mut case = String::from_str("        if ");
        case.append(start.as_str());
        case.append(" <= i < ");
        case.append(end.as_str());
        case.append(" {\n            lemma_languages_in_order_from_");
        case.append(start.as_str());
        case.append("(i);\n        }\n");
        cases.push(case);
        chunk += 1;
    }
    let all_lemmas = write_joined(&lemmas);
    let all_cases = write_joined(&cases);
    proof {
        lemma_joined_same(
            lemmas@.len(),
            |i: int| lemmas@[i]@,
            |chunk: int| chunk_lemma(count as nat, chunk),
        );
        lemma_joined_same(
            cases@.len(),
            |i: int| cases@[i]@,
            |chunk: int| chunk_case(count as nat, chunk),
        );
    }
    let mut text = String::from_str(ORDER_HEAD);
    text.append(all_lemmas.as_str());
    text.append(ORDER_LEMMA);
    text.append(all_cases.as_str());
    text.append(ORDER_END);
    text
}

impl<'a> Table<'a> {
    /// Writes the file on the three-letter codes.
    pub fn write_three_letter(&self) -> (text: String)
        ensures
            text@ == self.three_letter_source(),
    {
        let mut lines: Vec<String> = Vec::new();
        let mut i: usize = 0;
        while i < self.records.len()
            invariant
                i <= self.records@.len(),
                lines@.len() == i,
                forall|k: int| 0 <= k < i ==> (#[trigger] lines@[k])@ == self.three_letter_lines(k),
            decreases self.records@.len() - i,
        {
            let code = self.records[i].code_3;
            proof {
                assert(self.rows()[i as int] == self.records@[i as int]@);
            }
            let mut line = String::from_str("    reveal_strlit(");
            line.append(write_literal(code).as_str());
            line.append(");\n    assert(code_3_at(");
            line.append(write_decimal(i as u64).as_str());
            line.append(") =~= seq![");
            line.append(write_letters(code).as_str());
            line.append("]);\n");
            lines.push(line);
            i += 1;
        }
        let list = write_joined(&lines);
        proof {
            lemma_joined_same(
                lines@.len(),
                |i: int| lines@[i]@,
                |i: int| self.three_letter_lines(i),
            );
        }
        let mut text = String::from_str(THREE_LETTER_HEAD);
        text.append(list.as_str());
        text.append(LEMMA_END);
        text
    }

    /// Writes the file on the two-letter codes.
    pub fn write_two_letter(&self) -> (text: String)
        ensures
            text@ == self.two_letter_source(),
    {
        let mut lines: Vec<String> = Vec::new();
        let mut i: usize = 0;
        while i < self.records.len()
            invariant
                i <= self.records@.len(),
                lines@.len() == i,
                forall|k: int| 0 <= k < i ==> (#[trigger] lines@[k])@ == self.two_letter_lines(k),
            decreases self.records@.len() - i,
        {
            proof {
                assert(self.rows()[i as int] == self.records@[i as int]@);
            }
            let mut line = String::new();
            match self.records[i].code_1 {
                Some(code) => {
                    line.append("    reveal_strlit(");
                    line.append(write_literal(code).as_str());
                    line.append(");\n    assert(code_1_at(");
                    line.append(write_decimal(i as u64).as_str());
                    line.append(") =~= seq![");
                    line.append(write_letters(code).as_str());
                    line.append("]);\n");
                },
                None => {},
            }
            lines.push(line);
            i += 1;
        }
        let list = write_joined(&lines);
        proof {
            lemma_joined_same(lines@.len(), |i: int| lines@[i]@, |i: int| self.two_letter_lines(i));
        }
        let mut text = String::from_str(TWO_LETTER_HEAD);
        text.append(list.as_str());
        text.append(LEMMA_END);
        text
    }

    /// Writes the file on the names.
    pub fn write_names(&self) -> (text: String)
        ensures
            text@ == self.names_source(),
    {
        let mut lines: Vec<String> = Vec::new();
        let mut i: usize = 0;
        while i < self.records.len()
            invariant
                i <= self.records@.len(),
                lines@.len() == i,
                forall|k: int| 0 <= k < i ==> (#[trigger] lines@[k])@ == self.name_lines(k),
            decreases self.records@.len() - i,
        {
            let name = self.records[i].name_en;
            proof {
                assert(self.rows()[i as int] == self.records@[i as int]@);
            }
            let mut line = String::from_str("    reveal_strlit(");
            line.append(write_literal(name).as_str());
            line.append(");\n    assert(name_at(");
            line.append(write_decimal(i as u64).as_str());
            line.append(").len() == ");
            line.append(write_decimal(name.unicode_len() as u64).as_str());
            line.append(");\n");
            lines.push(line);
            i += 1;
        }
        let list = write_joined(&lines);
        proof {
            lemma_joined_same(lines@.len(), |i: int| lines@[i]@, |i: int| self.name_lines(i));
        }
        let mut text = String::from_str(NAMES_HEAD);
        text.append(list.as_str());
        text.append(LEMMA_END);
        text
    }
}

} // verus!
