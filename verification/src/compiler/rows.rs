//! Lines and fields of tab-separated text.
//!
//! A line ends with a line feed, or with a carriage return and a line feed;
//! the last line may end with the text. Fields are what stands between the
//! tabs of a line, so a line with `n` tabs has `n + 1` fields.

use vstd::prelude::*;
use vstd::string::StringSliceAdditionalSpecFns;
use crate::slices::{lemma_cut_before_ascii, lemma_cut_behind_ascii, lemma_str_bytes, part};

verus! {

/// The line feed.
pub const LINE_FEED: u8 = 0x0a;

/// The carriage return.
pub const CARRIAGE_RETURN: u8 = 0x0d;

/// The tab.
pub const TAB: u8 = 0x09;

/// How many bytes other than `byte` stand in `s` from place `from` on, up to
/// the first `byte` or to the end of `s`.
pub open spec fn run_from(s: Seq<u8>, from: int, byte: u8) -> nat
    decreases s.len() - from,
{
    if from >= s.len() || s[from] == byte {
        0
    } else {
        1 + run_from(s, from + 1, byte)
    }
}

/// The first place at or behind `from` where `s` holds `byte`; the length of
/// `s` if there is none.
pub open spec fn find_from(s: Seq<u8>, from: int, byte: u8) -> int {
    from + run_from(s, from, byte)
}

/// The line that starts at `from` and whose line feed, if it has one, stands
/// at `feed`: without the line feed and without a carriage return before it.
pub open spec fn line_between(s: Seq<u8>, from: int, feed: int) -> Seq<u8> {
    if feed < s.len() && from < feed && s[feed - 1] == CARRIAGE_RETURN {
        s.subrange(from, feed - 1)
    } else {
        s.subrange(from, feed)
    }
}

/// The lines of `s` that start at `from` or later.
pub open spec fn lines_from(s: Seq<u8>, from: int) -> Seq<Seq<u8>>
    decreases s.len() - from,
{
    if from >= s.len() || from < 0 {
        Seq::empty()
    } else {
        let feed = find_from(s, from, LINE_FEED);
        if feed >= s.len() {
            seq![line_between(s, from, feed)]
        } else {
            seq![line_between(s, from, feed)] + lines_from(s, feed + 1)
        }
    }
}

/// The lines of `s`.
pub open spec fn lines_of(s: Seq<u8>) -> Seq<Seq<u8>> {
    lines_from(s, 0)
}

/// The fields of `line` that start at `from` or later.
pub open spec fn fields_from(line: Seq<u8>, from: int) -> Seq<Seq<u8>>
    decreases line.len() - from,
{
    let tab = find_from(line, from, TAB);
    if tab >= line.len() || from < 0 {
        seq![line.subrange(from, line.len() as int)]
    } else {
        seq![line.subrange(from, tab)] + fields_from(line, tab + 1)
    }
}

/// The fields of `line`.
pub open spec fn fields_of(line: Seq<u8>) -> Seq<Seq<u8>> {
    fields_from(line, 0)
}

/// The bytes of each of the strings of `pieces`.
pub open spec fn bytes_of(pieces: Seq<&str>) -> Seq<Seq<u8>> {
    pieces.map_values(|piece: &str| piece.spec_bytes())
}

/// What `find_from` finds: a place between `from` and the length of `s`, with
/// `byte` at it if it is a place of `s`, and no `byte` between `from` and it.
pub proof fn lemma_find_from(s: Seq<u8>, from: int, byte: u8)
    requires
        0 <= from <= s.len(),
    ensures
        from <= find_from(s, from, byte) <= s.len(),
        find_from(s, from, byte) < s.len() ==> s[find_from(s, from, byte)] == byte,
        forall|i: int| from <= i < find_from(s, from, byte) ==> s[i] != byte,
    decreases s.len() - from,
{
    if from < s.len() && s[from] != byte {
        lemma_find_from(s, from + 1, byte);
    }
}

/// The first place at or behind `from` where `bytes` holds `byte`.
pub fn find_byte(bytes: &[u8], from: usize, byte: u8) -> (at: usize)
    requires
        from <= bytes@.len(),
    ensures
        at == find_from(bytes@, from as int, byte),
        from <= at <= bytes@.len(),
{
    let mut at = from;
    while at < bytes.len() && bytes[at] != byte
        invariant
            from <= at <= bytes@.len(),
            find_from(bytes@, from as int, byte) == find_from(bytes@, at as int, byte),
        decreases bytes@.len() - at,
    {
        at += 1;
    }
    at
}

/// Adding a string to a list adds its bytes to the bytes of the list.
pub proof fn lemma_bytes_of_push(pieces: Seq<&str>, piece: &str)
    ensures
        bytes_of(pieces.push(piece)) == bytes_of(pieces).push(piece.spec_bytes()),
{
    assert(bytes_of(pieces.push(piece)) =~= bytes_of(pieces).push(piece.spec_bytes()));
}

/// The lines of `text`, in order.
pub fn lines<'a>(text: &'a str) -> (rows: Vec<&'a str>)
    ensures
        bytes_of(rows@) == lines_of(text.spec_bytes()),
{
    let bytes = text.as_bytes();
    let mut rows: Vec<&'a str> = Vec::new();
    let mut from: usize = 0;
    proof {
        lemma_str_bytes(text);
        assert(bytes_of(rows@) =~= Seq::<Seq<u8>>::empty());
    }
    while from < bytes.len()
        invariant
            bytes@ == text.spec_bytes(),
            from <= bytes@.len(),
            vstd::utf8::valid_utf8(bytes@),
            vstd::utf8::is_char_boundary(bytes@, from as int),
            bytes_of(rows@) + lines_from(bytes@, from as int) == lines_of(bytes@),
        decreases bytes@.len() - from,
    {
        let feed = find_byte(bytes, from, LINE_FEED);
        let to = if feed < bytes.len() && from < feed && bytes[feed - 1] == CARRIAGE_RETURN {
            feed - 1
        } else {
            feed
        };
        proof {
            lemma_find_from(bytes@, from as int, LINE_FEED);
            lemma_str_bytes(text);
            if to < bytes@.len() {
                lemma_cut_before_ascii(bytes@, to as int);
            }
        }
        let row = part(text, from, to);
        proof {
            lemma_bytes_of_push(rows@, row);
        }
        rows.push(row);
        if feed < bytes.len() {
            proof {
                lemma_cut_behind_ascii(bytes@, feed as int);
                assert(bytes_of(rows@) + lines_from(bytes@, feed + 1) =~= bytes_of(
                    rows@.drop_last(),
                ) + lines_from(bytes@, from as int));
            }
            from = feed + 1;
        } else {
            proof {
                assert(bytes_of(rows@) + lines_from(bytes@, feed as int) =~= bytes_of(
                    rows@.drop_last(),
                ) + lines_from(bytes@, from as int));
            }
            from = feed;
        }
    }
    proof {
        assert(bytes_of(rows@) + lines_from(bytes@, from as int) =~= bytes_of(rows@));
    }
    rows
}

/// The fields of `line`, in order.
pub fn fields<'a>(line: &'a str) -> (columns: Vec<&'a str>)
    ensures
        bytes_of(columns@) == fields_of(line.spec_bytes()),
        columns@.len() >= 1,
{
    let bytes = line.as_bytes();
    let mut columns: Vec<&'a str> = Vec::new();
    let mut from: usize = 0;
    proof {
        lemma_str_bytes(line);
        assert(bytes_of(columns@) =~= Seq::<Seq<u8>>::empty());
    }
    loop
        invariant_except_break
            bytes@ == line.spec_bytes(),
            from <= bytes@.len(),
            vstd::utf8::valid_utf8(bytes@),
            vstd::utf8::is_char_boundary(bytes@, from as int),
            bytes_of(columns@) + fields_from(bytes@, from as int) == fields_of(bytes@),
        ensures
            bytes_of(columns@) == fields_of(line.spec_bytes()),
            columns@.len() >= 1,
        decreases bytes@.len() - from,
    {
        let tab = find_byte(bytes, from, TAB);
        proof {
            lemma_find_from(bytes@, from as int, TAB);
            lemma_str_bytes(line);
            if tab < bytes@.len() {
                lemma_cut_before_ascii(bytes@, tab as int);
            }
        }
        let column = part(line, from, tab);
        proof {
            lemma_bytes_of_push(columns@, column);
        }
        columns.push(column);
        if tab < bytes.len() {
            proof {
                lemma_cut_behind_ascii(bytes@, tab as int);
                assert(bytes_of(columns@) + fields_from(bytes@, tab + 1) =~= bytes_of(
                    columns@.drop_last(),
                ) + fields_from(bytes@, from as int));
            }
            from = tab + 1;
        } else {
            proof {
                assert(bytes_of(columns@) =~= bytes_of(columns@.drop_last()) + fields_from(
                    bytes@,
                    from as int,
                ));
            }
            break ;
        }
    }
    columns
}

} // verus!
