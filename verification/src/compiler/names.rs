//! The name of a language as the registry gives it: a name, which may be
//! followed by a remark in brackets.
//!
//! Where a name holds ` (` exactly once, the name ends there and the rest is
//! the remark. A name that holds it more than once, or not at all, is left
//! as it stands: the compiler does not guess.

use vstd::prelude::*;
use vstd::std_specs::iter::IteratorSpec;
use vstd::string::{StrSliceExecFns, StringSliceAdditionalSpecFns};
use vstd::utf8::{decode_utf8, encode_utf8_decode_utf8};
use crate::slices::{lemma_cut_before_ascii, lemma_cut_behind_ascii, lemma_str_bytes, part};

verus! {

/// The space.
pub const SPACE: u8 = 0x20;

/// The opening bracket.
pub const BRACKET: u8 = 0x28;

/// Whether `c` is white space, as `char::is_whitespace` tells it.
pub uninterp spec fn is_white_space(c: char) -> bool;

/// Tests with `char::is_whitespace` whether `c` is white space.
#[verifier::external_body]
fn white_space(c: char) -> (r: bool)
    ensures
        r == is_white_space(c),
{
    c.is_whitespace()
}

/// `s` without the white space at its end.
pub open spec fn trimmed_end(s: Seq<char>) -> Seq<char>
    decreases s.len(),
{
    if s.len() > 0 && is_white_space(s.last()) {
        trimmed_end(s.drop_last())
    } else {
        s
    }
}

/// Whether a space and an opening bracket stand at place `at` of `s`.
pub open spec fn remark_starts(s: Seq<u8>, at: int) -> bool {
    0 <= at && at + 1 < s.len() && s[at] == SPACE && s[at + 1] == BRACKET
}

/// How many places of `s`, from `from` on, come before the first at which a
/// remark starts, or before the end of `s`.
pub open spec fn run_to_remark(s: Seq<u8>, from: int) -> nat
    decreases s.len() - from,
{
    if from >= s.len() || remark_starts(s, from) {
        0
    } else {
        1 + run_to_remark(s, from + 1)
    }
}

/// The first place at or behind `from` at which a remark starts in `s`; the
/// length of `s` if there is none.
pub open spec fn find_remark(s: Seq<u8>, from: int) -> int {
    from + run_to_remark(s, from)
}

/// The name and the remark of `raw`, where `raw` holds ` (` exactly once:
/// what stands before it and what stands behind it.
pub open spec fn cut_remark(raw: Seq<u8>) -> Option<(Seq<u8>, Seq<u8>)> {
    let at = find_remark(raw, 0);
    if at < raw.len() && find_remark(raw, at + 2) >= raw.len() {
        Some((raw.subrange(0, at), raw.subrange(at + 2, raw.len() as int)))
    } else {
        None
    }
}

/// What `find_remark` finds: a place between `from` and the length of `s`,
/// with a remark starting at it if it is a place of `s`, and none starting
/// between `from` and it.
pub proof fn lemma_find_remark(s: Seq<u8>, from: int)
    requires
        0 <= from <= s.len(),
    ensures
        from <= find_remark(s, from) <= s.len(),
        find_remark(s, from) < s.len() ==> remark_starts(s, find_remark(s, from)),
        forall|i: int| from <= i < find_remark(s, from) ==> !remark_starts(s, i),
    decreases s.len() - from,
{
    if from < s.len() && !remark_starts(s, from) {
        lemma_find_remark(s, from + 1);
    }
}

/// The first place at or behind `from` at which a remark starts in `bytes`.
pub fn find_remark_in(bytes: &[u8], from: usize) -> (at: usize)
    requires
        from <= bytes@.len(),
    ensures
        at == find_remark(bytes@, from as int),
        from <= at <= bytes@.len(),
{
    let mut at = from;
    while at < bytes.len() && !(at + 1 < bytes.len() && bytes[at] == SPACE && bytes[at + 1]
        == BRACKET)
        invariant
            from <= at <= bytes@.len(),
            find_remark(bytes@, from as int) == find_remark(bytes@, at as int),
        decreases bytes@.len() - at,
    {
        at += 1;
    }
    at
}

/// How many of the characters are left where those at the end that are
/// white space are taken away; `white` tells of each character whether it is
/// white space.
pub open spec fn kept(white: Seq<bool>) -> nat
    decreases white.len(),
{
    if white.len() > 0 && white.last() {
        kept(white.drop_last())
    } else {
        white.len()
    }
}

/// How many of the characters are left where those at the end that are
/// white space are taken away.
pub fn kept_length(white: &Vec<bool>) -> (keep: usize)
    ensures
        keep == kept(white@),
{
    let mut keep: usize = white.len();
    proof {
        assert(white@.take(keep as int) =~= white@);
    }
    while keep > 0 && white[keep - 1]
        invariant
            keep <= white@.len(),
            kept(white@) == kept(white@.take(keep as int)),
        decreases keep,
    {
        proof {
            assert(white@.take(keep as int).drop_last() =~= white@.take(keep - 1));
        }
        keep -= 1;
    }
    keep
}

/// Taking white space away from the end leaves as many characters as the
/// list of what is white space says.
pub proof fn lemma_trimmed_end(s: Seq<char>, white: Seq<bool>)
    requires
        white.len() == s.len(),
        forall|i: int| 0 <= i < s.len() ==> white[i] == is_white_space(#[trigger] s[i]),
    ensures
        kept(white) <= s.len(),
        trimmed_end(s) == s.take(kept(white) as int),
    decreases s.len(),
{
    if s.len() > 0 && is_white_space(s.last()) {
        lemma_trimmed_end(s.drop_last(), white.drop_last());
        assert(s.drop_last().take(kept(white) as int) =~= s.take(kept(white) as int));
    } else {
        assert(s.take(s.len() as int) =~= s);
    }
}

/// `s` without the white space at its end.
pub fn trim_end<'a>(s: &'a str) -> (trimmed: &'a str)
    ensures
        trimmed@ == trimmed_end(s@),
{
    let total = s.unicode_len();
    let mut white: Vec<bool> = Vec::new();
    let mut chars = s.chars();
    while white.len() < total
        invariant
            white@.len() <= total,
            total == s@.len(),
            chars.remaining() == s@.skip(white@.len() as int),
            forall|i: int| 0 <= i < white@.len() ==> white@[i] == is_white_space(#[trigger] s@[i]),
        decreases total - white@.len(),
    {
        let ghost seen = white@.len() as int;
        let next = chars.next();
        proof {
            assert(s@.skip(seen + 1) =~= s@.skip(seen).drop_first());
        }
        match next {
            Some(c) => {
                white.push(white_space(c));
            },
            None => {},
        }
    }
    proof {
        lemma_trimmed_end(s@, white@);
    }
    s.substring_char(0, kept_length(&white))
}

/// The name of a language and the remark behind it, taken from the name as
/// the registry gives it.
pub fn split_name<'a>(raw: &'a str) -> (r: (&'a str, Option<&'a str>))
    ensures
        match cut_remark(raw.spec_bytes()) {
            Some((name, remark)) => {
                &&& r.0@ == trimmed_end(decode_utf8(name))
                &&& r.1 matches Some(given)
                &&& given.spec_bytes() == remark
            },
            None => r.0@ == raw@ && r.1 is None,
        },
{
    let bytes = raw.as_bytes();
    let at = find_remark_in(bytes, 0);
    if at >= bytes.len() {
        return (raw, None);
    }
    proof {
        lemma_find_remark(bytes@, 0);
    }
    let again = find_remark_in(bytes, at + 2);
    if again < bytes.len() {
        return (raw, None);
    }
    proof {
        lemma_str_bytes(raw);
        lemma_cut_before_ascii(bytes@, at as int);
        lemma_cut_behind_ascii(bytes@, at + 1);
    }
    let name = part(raw, 0, at);
    let remark = part(raw, at + 2, bytes.len());
    proof {
        encode_utf8_decode_utf8(name@);
    }
    (trim_end(name), Some(remark))
}

} // verus!
