//! Parts of a string, cut at the places of ASCII bytes.
//!
//! An ASCII byte in UTF-8 is always a character of its own, so a string can
//! be cut before and behind it.

use vstd::prelude::*;
use vstd::string::StringSliceAdditionalSpecFns;
use vstd::utf8::{
    encode_utf8_valid_utf8, is_char_boundary, is_char_boundary_iff_not_is_continuation_byte,
    is_char_boundary_start_end_of_seq, length_of_first_scalar, pop_first_scalar, valid_utf8,
    valid_utf8_split,
};

verus! {

/// In valid UTF-8, a character starts at every ASCII byte.
pub proof fn lemma_cut_before_ascii(bytes: Seq<u8>, at: int)
    requires
        valid_utf8(bytes),
        0 <= at < bytes.len(),
        bytes[at] < 0x80,
    ensures
        is_char_boundary(bytes, at),
{
    is_char_boundary_iff_not_is_continuation_byte(bytes, at);
}

/// In valid UTF-8, a character ends with every ASCII byte.
pub proof fn lemma_cut_behind_ascii(bytes: Seq<u8>, at: int)
    requires
        valid_utf8(bytes),
        0 <= at < bytes.len(),
        bytes[at] < 0x80,
    ensures
        is_char_boundary(bytes, at + 1),
    decreases bytes.len(),
{
    let first = length_of_first_scalar(bytes);
    let rest = pop_first_scalar(bytes);
    if at < first {
        assert(at == 0);
        assert(first == 1);
        assert(is_char_boundary(rest, 0));
        reveal_with_fuel(is_char_boundary, 2);
    } else {
        assert(rest[at - first] == bytes[at]);
        lemma_cut_behind_ascii(rest, at - first);
        reveal_with_fuel(is_char_boundary, 2);
    }
}

/// The bytes of a string are valid UTF-8, and the string can be cut at its
/// start and at its end.
pub proof fn lemma_str_bytes(s: &str)
    ensures
        valid_utf8(s.spec_bytes()),
        is_char_boundary(s.spec_bytes(), 0),
        is_char_boundary(s.spec_bytes(), s.spec_bytes().len() as int),
{
    encode_utf8_valid_utf8(s@);
    is_char_boundary_start_end_of_seq(s.spec_bytes());
}

/// The part of `s` from the byte at `from` up to, and without, the byte at
/// `to`.
pub fn part<'a>(s: &'a str, from: usize, to: usize) -> (piece: &'a str)
    requires
        from <= to <= s.spec_bytes().len(),
        is_char_boundary(s.spec_bytes(), from as int),
        is_char_boundary(s.spec_bytes(), to as int),
    ensures
        piece.spec_bytes() == s.spec_bytes().subrange(from as int, to as int),
{
    proof {
        lemma_str_bytes(s);
    }
    let (head, _) = s.split_at(to);
    proof {
        let bytes = s.spec_bytes();
        let kept = bytes.subrange(0, to as int);
        valid_utf8_split(bytes, to as int);
        lemma_str_bytes(head);
        if from < to {
            is_char_boundary_iff_not_is_continuation_byte(bytes, from as int);
            is_char_boundary_iff_not_is_continuation_byte(kept, from as int);
        }
    }
    let (_, piece) = head.split_at(from);
    proof {
        assert(piece.spec_bytes() =~= s.spec_bytes().subrange(from as int, to as int));
    }
    piece
}

} // verus!
