//! The pieces of which the source files of the table are written: numbers,
//! string literals, and lists of lines.

use vstd::prelude::*;
use vstd::string::{StrSliceExecFns, StringExecFns};

verus! {

/// The digits, each as a string.
pub const DIGITS: [&'static str; 10] = ["0", "1", "2", "3", "4", "5", "6", "7", "8", "9"];

/// The digit for `d`.
pub open spec fn digit(d: int) -> char {
    if d == 0 {
        '0'
    } else if d == 1 {
        '1'
    } else if d == 2 {
        '2'
    } else if d == 3 {
        '3'
    } else if d == 4 {
        '4'
    } else if d == 5 {
        '5'
    } else if d == 6 {
        '6'
    } else if d == 7 {
        '7'
    } else if d == 8 {
        '8'
    } else {
        '9'
    }
}

/// `n` in decimal notation.
pub open spec fn decimal(n: nat) -> Seq<char>
    decreases n,
{
    if n < 10 {
        seq![digit(n as int)]
    } else {
        decimal(n / 10).push(digit((n % 10) as int))
    }
}

/// What stands for the character `c` inside a string literal.
pub open spec fn escaped(c: char) -> Seq<char> {
    if c == '\\' {
        seq!['\\', '\\']
    } else if c == '"' {
        seq!['\\', '"']
    } else {
        seq![c]
    }
}

/// What stands for the characters of `s` inside a string literal.
pub open spec fn escaped_text(s: Seq<char>) -> Seq<char>
    decreases s.len(),
{
    if s.len() == 0 {
        Seq::empty()
    } else {
        escaped_text(s.drop_last()) + escaped(s.last())
    }
}

/// The string literal for `s`.
pub open spec fn literal(s: Seq<char>) -> Seq<char> {
    seq!['"'] + escaped_text(s) + seq!['"']
}

/// The text of `count` pieces, one behind the other, where `piece` gives the
/// piece at each place.
pub open spec fn joined(count: nat, piece: spec_fn(int) -> Seq<char>) -> Seq<char>
    decreases count,
{
    if count == 0 {
        Seq::empty()
    } else {
        joined((count - 1) as nat, piece) + piece(count - 1)
    }
}

/// Each of the strings of `DIGITS` is its digit.
pub proof fn lemma_digits(d: int)
    requires
        0 <= d < 10,
    ensures
        DIGITS[d]@ == seq![digit(d)],
{
    reveal_strlit("0");
    assert("0"@ =~= seq!['0']);
    reveal_strlit("1");
    assert("1"@ =~= seq!['1']);
    reveal_strlit("2");
    assert("2"@ =~= seq!['2']);
    reveal_strlit("3");
    assert("3"@ =~= seq!['3']);
    reveal_strlit("4");
    assert("4"@ =~= seq!['4']);
    reveal_strlit("5");
    assert("5"@ =~= seq!['5']);
    reveal_strlit("6");
    assert("6"@ =~= seq!['6']);
    reveal_strlit("7");
    assert("7"@ =~= seq!['7']);
    reveal_strlit("8");
    assert("8"@ =~= seq!['8']);
    reveal_strlit("9");
    assert("9"@ =~= seq!['9']);
}

/// Writes `n` in decimal notation.
pub fn write_decimal(n: u64) -> (text: String)
    ensures
        text@ == decimal(n as nat),
    decreases n,
{
    proof {
        lemma_digits((n % 10) as int);
    }
    if n < 10 {
        String::from_str(DIGITS[n as usize])
    } else {
        let mut text = write_decimal(n / 10);
        text.append(DIGITS[(n % 10) as usize]);
        text
    }
}

/// Writes the string literal for `s`.
pub fn write_literal(s: &str) -> (text: String)
    ensures
        text@ == literal(s@),
{
    let len = s.unicode_len();
    let mut text = String::from_str("\"");
    proof {
        reveal_strlit("\"");
        assert("\""@ =~= seq!['"']);
        assert(s@.take(0) =~= Seq::<char>::empty());
    }
    let mut i: usize = 0;
    while i < len
        invariant
            i <= len,
            len == s@.len(),
            text@ == seq!['"'] + escaped_text(s@.take(i as int)),
        decreases len - i,
    {
        let c = s.get_char(i);
        proof {
            assert(s@.take(i + 1).drop_last() =~= s@.take(i as int));
            assert(s@.take(i + 1).last() == c);
            reveal_strlit("\\\\");
            assert("\\\\"@ =~= seq!['\\', '\\']);
            reveal_strlit("\\\"");
            assert("\\\""@ =~= seq!['\\', '"']);
            assert(s@.subrange(i as int, i + 1) =~= seq![c]);
        }
        if c == '\\' {
            text.append("\\\\");
        } else if c == '"' {
            text.append("\\\"");
        } else {
            text.append(s.substring_char(i, i + 1));
        }
        proof {
            assert(text@ =~= seq!['"'] + escaped_text(s@.take(i + 1)));
        }
        i += 1;
    }
    proof {
        assert(s@.take(len as int) =~= s@);
        reveal_strlit("\"");
        assert("\""@ =~= seq!['"']);
    }
    text.append("\"");
    text
}

/// Pieces that are the same at each place give the same text.
pub proof fn lemma_joined_same(
    count: nat,
    piece: spec_fn(int) -> Seq<char>,
    other: spec_fn(int) -> Seq<char>,
)
    requires
        forall|i: int| 0 <= i < count ==> #[trigger] piece(i) == other(i),
    ensures
        joined(count, piece) == joined(count, other),
    decreases count,
{
    if count > 0 {
        lemma_joined_same((count - 1) as nat, piece, other);
    }
}

/// Writes the strings of `pieces` one behind the other.
pub fn write_joined(pieces: &Vec<String>) -> (text: String)
    ensures
        text@ == joined(pieces@.len(), |i: int| pieces@[i]@),
{
    let ghost piece = |i: int| pieces@[i]@;
    let mut text = String::new();
    let mut i: usize = 0;
    while i < pieces.len()
        invariant
            i <= pieces@.len(),
            piece == |i: int| pieces@[i]@,
            text@ == joined(i as nat, piece),
        decreases pieces@.len() - i,
    {
        text.append(pieces[i].as_str());
        i += 1;
    }
    text
}

} // verus!
