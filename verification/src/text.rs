//! Comparisons and small predicates on text, stated over the characters of a
//! string (its view) and proved through its UTF-8 bytes.

use vstd::prelude::*;
use vstd::string::{StrSliceExecFns, StringSliceAdditionalSpecFns};
use vstd::utf8::{encode_utf8, encode_utf8_decode_utf8, is_ascii_chars, is_ascii_chars_encode_utf8};

verus! {

/// Whether `c` is one of the letters `a` to `z`.
pub open spec fn is_lower_letter(c: char) -> bool {
    'a' <= c <= 'z'
}

/// Whether every character of `s` is one of the letters `a` to `z`.
pub open spec fn all_lower_letters(s: Seq<char>) -> bool {
    forall|i: int| 0 <= i < s.len() ==> is_lower_letter(#[trigger] s[i])
}

/// The number that orders three-letter codes: the three characters as the
/// digits of a number in base 256.
pub open spec fn code_key(code: Seq<char>) -> int {
    (code[0] as int) * 65536 + (code[1] as int) * 256 + (code[2] as int)
}

/// The place of a two-letter code among the 676 pairs of letters in the
/// order `aa`, `ab`, ... `zz`.
pub open spec fn two_letter_slot(code: Seq<char>) -> int {
    (code[0] as int - 'a' as int) * 26 + (code[1] as int - 'a' as int)
}

/// Two strings with the same UTF-8 bytes hold the same characters.
pub proof fn lemma_same_bytes_same_chars(a: Seq<char>, b: Seq<char>)
    requires
        encode_utf8(a) == encode_utf8(b),
    ensures
        a == b,
{
    encode_utf8_decode_utf8(a);
    encode_utf8_decode_utf8(b);
}

/// The number of bytes that `s` takes in UTF-8.
pub fn byte_len(s: &str) -> (n: usize)
    ensures
        n == s.spec_bytes().len(),
        n == encode_utf8(s@).len(),
{
    s.as_bytes().len()
}

/// Tests whether two strings hold the same characters.
pub fn str_eq(a: &str, b: &str) -> (r: bool)
    ensures
        r == (a@ == b@),
{
    let x = a.as_bytes();
    let y = b.as_bytes();
    if x.len() != y.len() {
        return false;
    }
    let mut i: usize = 0;
    while i < x.len()
        invariant
            i <= x.len(),
            x.len() == y.len(),
            x@ == a.spec_bytes(),
            y@ == b.spec_bytes(),
            forall|j: int| 0 <= j < i ==> x@[j] == y@[j],
        decreases x.len() - i,
    {
        if x[i] != y[i] {
            return false;
        }
        i += 1;
    }
    proof {
        assert(x@ =~= y@);
        lemma_same_bytes_same_chars(a@, b@);
    }
    true
}

/// Letters are ASCII: a string of letters `a` to `z` takes one byte for each
/// character.
pub proof fn lemma_lower_letters_ascii(s: Seq<char>)
    requires
        all_lower_letters(s),
    ensures
        is_ascii_chars(s),
        encode_utf8(s).len() == s.len(),
{
    assert forall|i: int| 0 <= i < s.len() implies '\0' <= #[trigger] s[i] <= '\u{7f}' by {
        assert(is_lower_letter(s[i]));
    }
    is_ascii_chars_encode_utf8(s);
}

/// Two ASCII strings of three characters with the same key are the same.
pub proof fn lemma_code_key_injective(a: Seq<char>, b: Seq<char>)
    requires
        a.len() == 3,
        b.len() == 3,
        is_ascii_chars(a),
        is_ascii_chars(b),
        code_key(a) == code_key(b),
    ensures
        a == b,
{
    assert('\0' <= a[0] <= '\u{7f}' && '\0' <= a[1] <= '\u{7f}' && '\0' <= a[2] <= '\u{7f}');
    assert('\0' <= b[0] <= '\u{7f}' && '\0' <= b[1] <= '\u{7f}' && '\0' <= b[2] <= '\u{7f}');
    assert(a[0] == b[0] && a[1] == b[1] && a[2] == b[2]);
    assert(a =~= b);
}

/// The key of an ASCII string of three characters.
pub fn three_letter_key(code: &str) -> (k: u32)
    requires
        is_ascii_chars(code@),
        code@.len() == 3,
    ensures
        k == code_key(code@),
{
    let a = code.get_ascii(0);
    let b = code.get_ascii(1);
    let c = code.get_ascii(2);
    proof {
        assert('\0' <= code@[0] <= '\u{7f}' && '\0' <= code@[1] <= '\u{7f}' && '\0' <= code@[2]
            <= '\u{7f}');
    }
    (a as u32) * 65536 + (b as u32) * 256 + (c as u32)
}

} // verus!
