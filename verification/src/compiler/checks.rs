//! What must hold of the records before they become the overview table.
//!
//! The lookups of the library rest on it: a three-letter code is three
//! letters `a` to `z`, and the codes grow from record to record; a
//! two-letter code is two such letters, and no two records share one; and
//! every record has a name.

use vstd::prelude::*;
use vstd::string::StrSliceExecFns;
use vstd::utf8::{is_ascii_chars, is_ascii_chars_encode_utf8};
use crate::compiler::records::{record_views, LangCode, Record};
use crate::text::{
    all_lower_letters, byte_len, code_key, is_lower_letter, lemma_lower_letters_ascii,
    three_letter_key, two_letter_slot,
};

verus! {

/// The number of slots for two-letter codes: one for each pair of letters.
pub const SLOT_COUNT: usize = 676;

/// Whether `code` is three letters `a` to `z`.
pub open spec fn is_code_3(code: Seq<char>) -> bool {
    code.len() == 3 && all_lower_letters(code)
}

/// Whether `code` is two letters `a` to `z`.
pub open spec fn is_code_1(code: Seq<char>) -> bool {
    code.len() == 2 && all_lower_letters(code)
}

/// Whether `records` can be the overview table.
pub open spec fn well_formed(records: Seq<Record>) -> bool {
    &&& records.len() < u16::MAX
    &&& forall|i: int| 0 <= i < records.len() ==> is_code_3(#[trigger] records[i].code_3)
    &&& forall|i: int, j: int|
        0 <= i < j < records.len() ==> code_key(#[trigger] records[i].code_3) < code_key(
            #[trigger] records[j].code_3,
        )
    &&& forall|i: int|
        0 <= i < records.len() ==> (#[trigger] records[i].code_1 matches Some(code) ==> is_code_1(
            code,
        ))
    &&& forall|i: int, j: int|
        0 <= i < records.len() && 0 <= j < records.len() && i != j
            && #[trigger] records[i].code_1 is Some ==> records[i].code_1
            != #[trigger] records[j].code_1
    &&& forall|i: int| 0 <= i < records.len() ==> (#[trigger] records[i].name_en).len() > 0
}

/// Why records cannot be the overview table. Each names the first record,
/// by its place, at which the fault shows.
#[derive(Debug, PartialEq, Eq)]
pub enum TableError {
    /// There are more records than a slot can number.
    TooManyRecords,
    /// The three-letter code of the record is not three letters `a` to `z`.
    BadCode3 { row: usize },
    /// The three-letter code of the record is not above the one before it.
    OutOfOrder { row: usize },
    /// The two-letter code of the record is not two letters `a` to `z`.
    BadCode1 { row: usize },
    /// An earlier record has the two-letter code of the record.
    DuplicateCode1 { row: usize },
    /// The record has an empty name.
    EmptyName { row: usize },
}

impl TableError {
    /// Whether `records` show the fault that this error names.
    pub open spec fn holds_of(self, records: Seq<Record>) -> bool {
        match self {
            TableError::TooManyRecords => records.len() >= u16::MAX,
            TableError::BadCode3 { row } => row < records.len() && !is_code_3(
                records[row as int].code_3,
            ),
            TableError::OutOfOrder { row } => 0 < row < records.len() && code_key(
                records[row - 1].code_3,
            ) >= code_key(records[row as int].code_3),
            TableError::BadCode1 { row } => row < records.len() && (records[row as int].code_1
                matches Some(code) && !is_code_1(code)),
            TableError::DuplicateCode1 { row } => row < records.len() && records[row as int].code_1
                is Some && exists|i: int|
                0 <= i < row && #[trigger] records[i].code_1 == records[row as int].code_1,
            TableError::EmptyName { row } => row < records.len() && records[row as int].name_en.len()
                == 0,
        }
    }

    /// Records that show a fault are not well formed.
    pub proof fn lemma_not_well_formed(self, records: Seq<Record>)
        requires
            self.holds_of(records),
        ensures
            !well_formed(records),
    {
        match self {
            TableError::DuplicateCode1 { row } => {
                let i = choose|i: int|
                    0 <= i < row && #[trigger] records[i].code_1 == records[row as int].code_1;
                assert(records[row as int].code_1 is Some);
            },
            TableError::OutOfOrder { row } => {
                assert(code_key(records[row - 1].code_3) >= code_key(records[row as int].code_3));
            },
            _ => {},
        }
    }
}

/// Tests whether `code` is `len` letters `a` to `z`.
pub fn is_letters(code: &str, len: usize) -> (r: bool)
    ensures
        r == (code@.len() == len && all_lower_letters(code@)),
{
    if byte_len(code) != len || !code.is_ascii() {
        proof {
            if code@.len() == len && all_lower_letters(code@) {
                lemma_lower_letters_ascii(code@);
            }
        }
        return false;
    }
    proof {
        is_ascii_chars_encode_utf8(code@);
    }
    let mut i: usize = 0;
    while i < len
        invariant
            i <= len,
            code@.len() == len,
            is_ascii_chars(code@),
            forall|j: int| 0 <= j < i ==> is_lower_letter(#[trigger] code@[j]),
        decreases len - i,
    {
        let byte = code.get_ascii(i);
        proof {
            assert('\0' <= code@[i as int] <= '\u{7f}');
        }
        if byte < 97 || byte > 122 {
            return false;
        }
        i += 1;
    }
    true
}

/// Whether `slots` holds, for each pair of letters, one more than the place
/// of the record with that two-letter code, and 0 where no record has it.
pub open spec fn slots_hold(slots: Seq<u16>, records: Seq<Record>) -> bool {
    &&& slots.len() == SLOT_COUNT
    &&& forall|i: int|
        0 <= i < records.len() ==> (#[trigger] records[i].code_1 matches Some(code) ==> slots[two_letter_slot(
            code,
        )] == i + 1)
    &&& forall|s: int|
        0 <= s < SLOT_COUNT ==> #[trigger] slots[s] == 0 || {
            &&& slots[s] <= records.len()
            &&& records[slots[s] - 1].code_1 matches Some(code)
            &&& two_letter_slot(code) == s
        }
}

/// Two codes of two letters `a` to `z` with the same slot are the same.
pub proof fn lemma_slot_injective(a: Seq<char>, b: Seq<char>)
    requires
        is_code_1(a),
        is_code_1(b),
        two_letter_slot(a) == two_letter_slot(b),
    ensures
        a == b,
{
    assert(is_lower_letter(a[0]) && is_lower_letter(a[1]));
    assert(is_lower_letter(b[0]) && is_lower_letter(b[1]));
    assert(a[0] == b[0] && a[1] == b[1]);
    assert(a =~= b);
}

/// The slot of a code of two letters `a` to `z` is one of the slots.
pub proof fn lemma_slot_in_range(code: Seq<char>)
    requires
        is_code_1(code),
    ensures
        0 <= two_letter_slot(code) < SLOT_COUNT,
{
    assert(is_lower_letter(code[0]) && is_lower_letter(code[1]));
}

/// Codes that grow from each record to the next grow from each record to
/// every later one.
pub proof fn lemma_growing(records: Seq<Record>, i: int, j: int)
    requires
        0 <= i < j < records.len(),
        forall|k: int|
            0 < k < records.len() ==> code_key(records[k - 1].code_3) < code_key(
                #[trigger] records[k].code_3,
            ),
    ensures
        code_key(records[i].code_3) < code_key(records[j].code_3),
    decreases j - i,
{
    if i + 1 < j {
        lemma_growing(records, i, j - 1);
    }
    assert(code_key(records[j - 1].code_3) < code_key(records[j].code_3));
}

/// Checks the three-letter codes and the names of `records`, and their
/// number.
pub fn check_codes(records: &Vec<LangCode>) -> (r: Result<(), TableError>)
    ensures
        match r {
            Ok(_) => {
                &&& records@.len() < u16::MAX
                &&& forall|i: int|
                    0 <= i < records@.len() ==> is_code_3(#[trigger] record_views(records@)[i].code_3)
                &&& forall|i: int, j: int|
                    0 <= i < j < records@.len() ==> code_key(
                        #[trigger] record_views(records@)[i].code_3,
                    ) < code_key(#[trigger] record_views(records@)[j].code_3)
                &&& forall|i: int|
                    0 <= i < records@.len() ==> (#[trigger] record_views(records@)[i].name_en).len() > 0
            },
            Err(e) => e.holds_of(record_views(records@)),
        },
{
    if records.len() >= 65535 {
        return Err(TableError::TooManyRecords);
    }
    let ghost table = record_views(records@);
    let mut last: u32 = 0;
    let mut i: usize = 0;
    while i < records.len()
        invariant
            i <= records@.len(),
            table == record_views(records@),
            forall|k: int| 0 <= k < i ==> is_code_3(#[trigger] table[k].code_3),
            forall|k: int|
                0 < k < i ==> code_key(table[k - 1].code_3) < code_key(#[trigger] table[k].code_3),
            forall|k: int| 0 <= k < i ==> (#[trigger] table[k].name_en).len() > 0,
            i > 0 ==> last == code_key(table[i - 1].code_3),
        decreases records@.len() - i,
    {
        let record = &records[i];
        proof {
            assert(table[i as int] == records@[i as int]@);
        }
        if !is_letters(record.code_3, 3) {
            return Err(TableError::BadCode3 { row: i });
        }
        proof {
            lemma_lower_letters_ascii(record.code_3@);
        }
        let key = three_letter_key(record.code_3);
        if i > 0 && key <= last {
            return Err(TableError::OutOfOrder { row: i });
        }
        if record.name_en.is_empty() {
            return Err(TableError::EmptyName { row: i });
        }
        last = key;
        i += 1;
    }
    proof {
        assert forall|a: int, b: int| 0 <= a < b < records@.len() implies code_key(
            #[trigger] table[a].code_3,
        ) < code_key(#[trigger] table[b].code_3) by {
            lemma_growing(table, a, b);
        }
    }
    Ok(())
}

/// Checks the two-letter codes of `records` and gives each its slot.
pub fn fill_slots(records: &Vec<LangCode>) -> (r: Result<Vec<u16>, TableError>)
    requires
        records@.len() < u16::MAX,
    ensures
        match r {
            Ok(slots) => {
                &&& slots_hold(slots@, record_views(records@))
                &&& forall|i: int|
                    0 <= i < records@.len() ==> (#[trigger] record_views(records@)[i].code_1 matches Some(
                        code,
                    ) ==> is_code_1(code))
            },
            Err(e) => e.holds_of(record_views(records@)),
        },
{
    let ghost table = record_views(records@);
    let mut slots: Vec<u16> = Vec::new();
    let mut s: usize = 0;
    while s < SLOT_COUNT
        invariant
            s <= SLOT_COUNT,
            slots@.len() == s,
            forall|k: int| 0 <= k < s ==> slots@[k] == 0,
        decreases SLOT_COUNT - s,
    {
        slots.push(0);
        s += 1;
    }
    let mut i: usize = 0;
    while i < records.len()
        invariant
            i <= records@.len() < u16::MAX,
            table == record_views(records@),
            slots_hold(slots@, table.take(i as int)),
            forall|k: int|
                0 <= k < i ==> (#[trigger] table[k].code_1 matches Some(code) ==> is_code_1(code)),
        decreases records@.len() - i,
    {
        proof {
            assert(table[i as int] == records@[i as int]@);
            assert forall|k: int| 0 <= k < i implies table.take(i as int)[k] == table[k] by {}
        }
        match records[i].code_1 {
            Some(code) => {
                if !is_letters(code, 2) {
                    return Err(TableError::BadCode1 { row: i });
                }
                proof {
                    lemma_lower_letters_ascii(code@);
                    lemma_slot_in_range(code@);
                    assert('\0' <= code@[0] <= '\u{7f}' && '\0' <= code@[1] <= '\u{7f}');
                    assert(is_lower_letter(code@[0]) && is_lower_letter(code@[1]));
                }
                let a = code.get_ascii(0);
                let b = code.get_ascii(1);
                let slot = (a - 97) as usize * 26 + (b - 97) as usize;
                if slots[slot] != 0 {
                    proof {
                        let earlier = slots@[slot as int] - 1;
                        let before = table.take(i as int);
                        assert(before[earlier].code_1 matches Some(other) && two_letter_slot(other)
                            == slot);
                        assert(before[earlier] == table[earlier]);
                        lemma_slot_injective(table[earlier].code_1->0, code@);
                        assert(table[earlier].code_1 == table[i as int].code_1);
                    }
                    return Err(TableError::DuplicateCode1 { row: i });
                }
                let ghost old_slots = slots@;
                slots.set(slot, (i + 1) as u16);
                proof {
                    let before = table.take(i as int);
                    let now = table.take(i + 1);
                    assert forall|k: int| 0 <= k < now.len() implies (#[trigger] now[k].code_1
                        matches Some(c) ==> slots@[two_letter_slot(c)] == k + 1) by {
                        if k < i {
                            assert(now[k] == before[k]);
                            if let Some(c) = before[k].code_1 {
                                assert(old_slots[two_letter_slot(c)] == k + 1);
                            }
                        }
                    }
                    assert forall|t: int| 0 <= t < SLOT_COUNT implies #[trigger] slots@[t] == 0 || {
                        &&& slots@[t] <= now.len()
                        &&& now[slots@[t] - 1].code_1 matches Some(c)
                        &&& two_letter_slot(c) == t
                    } by {
                        if t != slot && old_slots[t] != 0 {
                            assert(now[old_slots[t] - 1] == before[old_slots[t] - 1]);
                        }
                    }
                }
            },
            None => {
                proof {
                    let before = table.take(i as int);
                    let now = table.take(i + 1);
                    assert forall|k: int| 0 <= k < now.len() implies (#[trigger] now[k].code_1
                        matches Some(c) ==> slots@[two_letter_slot(c)] == k + 1) by {
                        if k < i {
                            assert(now[k] == before[k]);
                        }
                    }
                    assert forall|t: int| 0 <= t < SLOT_COUNT implies #[trigger] slots@[t] == 0 || {
                        &&& slots@[t] <= now.len()
                        &&& now[slots@[t] - 1].code_1 matches Some(c)
                        &&& two_letter_slot(c) == t
                    } by {
                        if slots@[t] != 0 {
                            assert(now[slots@[t] - 1] == before[slots@[t] - 1]);
                        }
                    }
                }
            },
        }
        i += 1;
    }
    proof {
        assert(table.take(i as int) =~= table);
    }
    Ok(slots)
}

/// Records whose two-letter codes have a slot each do not share one.
pub proof fn lemma_slots_unique(slots: Seq<u16>, records: Seq<Record>)
    requires
        slots_hold(slots, records),
    ensures
        forall|i: int, j: int|
            0 <= i < records.len() && 0 <= j < records.len() && i != j
                && #[trigger] records[i].code_1 is Some ==> records[i].code_1
                != #[trigger] records[j].code_1,
{
}

/// Checks that `records` can be the overview table, and gives each
/// two-letter code its slot.
pub fn check(records: &Vec<LangCode>) -> (r: Result<Vec<u16>, TableError>)
    ensures
        match r {
            Ok(slots) => well_formed(record_views(records@)) && slots_hold(slots@, record_views(records@)),
            Err(e) => e.holds_of(record_views(records@)),
        },
{
    match check_codes(records) {
        Ok(_) => {},
        Err(e) => {
            return Err(e);
        },
    }
    match fill_slots(records) {
        Ok(slots) => {
            proof {
                lemma_slots_unique(slots@, record_views(records@));
            }
            Ok(slots)
        },
        Err(e) => Err(e),
    }
}

} // verus!
