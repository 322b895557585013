//! Text of the table that is derived from its records: the names of the
//! variants, which are the three-letter codes with a capital, and the names
//! in lower case.

use vstd::prelude::*;
use vstd::string::{StrSliceExecFns, StringExecFns};

verus! {

/// The upper-case form of `c`, as `char::to_uppercase` gives it: one
/// character or several.
pub uninterp spec fn uppercase(c: char) -> Seq<char>;

/// The upper-case form of `c`, from `char::to_uppercase`.
#[verifier::external_body]
fn to_uppercase(c: char) -> (upper: String)
    ensures
        upper@ == uppercase(c),
{
    c.to_uppercase().collect()
}

/// `s` in lower case, as `str::to_lowercase` gives it.
pub uninterp spec fn lowercase(s: Seq<char>) -> Seq<char>;

/// `s` in lower case, from `str::to_lowercase`.
#[verifier::external_body]
pub(crate) fn to_lowercase(s: &str) -> (lower: String)
    ensures
        lower@ == lowercase(s@),
{
    s.to_lowercase()
}

/// `s` with its first character in upper case.
pub open spec fn title_of(s: Seq<char>) -> Seq<char> {
    if s.len() == 0 {
        s
    } else {
        uppercase(s[0]) + s.skip(1)
    }
}

/// `s` with `upper` in the place of its first character.
pub fn with_capital(upper: String, s: &str) -> (titled: String)
    requires
        s@.len() > 0,
    ensures
        titled@ == upper@ + s@.skip(1),
{
    let len = s.unicode_len();
    let mut titled = upper;
    titled.append(s.substring_char(1, len));
    titled
}

/// `s` with its first character in upper case.
pub fn title(s: &str) -> (titled: String)
    ensures
        titled@ == title_of(s@),
{
    if s.unicode_len() == 0 {
        return String::from_str(s);
    }
    with_capital(to_uppercase(s.get_char(0)), s)
}

} // verus!
