//! The two forms in which a language is written out.

use vstd::prelude::*;
use vstd::string::StringExecFns;
use crate::language::option_view;
use crate::table::Language;

verus! {

/// How a language is shown to a reader, from what is known of it: the
/// English name followed by the autonym in brackets where both are known, the
/// one of them that is known where only one is, and else the three-letter
/// code.
pub open spec fn display_form(
    code_3: Seq<char>,
    name: Option<Seq<char>>,
    autonym: Option<Seq<char>>,
) -> Seq<char> {
    match (name, autonym) {
        (Some(name), Some(autonym)) => name + " ("@ + autonym + ")"@,
        (None, Some(autonym)) => autonym,
        (Some(name), None) => name,
        (None, None) => code_3,
    }
}

/// Writes a language out for a reader from its three-letter code and, where
/// they are known, its English name and its autonym.
pub fn display(code_3: &str, name: Option<&str>, autonym: Option<&str>) -> (shown: String)
    ensures
        shown@ == display_form(code_3@, option_view(name), option_view(autonym)),
{
    match (name, autonym) {
        (Some(name), Some(autonym)) => {
            let mut shown = String::from_str(name);
            shown.append(" (");
            shown.append(autonym);
            shown.append(")");
            shown
        },
        (None, Some(autonym)) => String::from_str(autonym),
        (Some(name), None) => String::from_str(name),
        (None, None) => String::from_str(code_3),
    }
}

impl Language {
    /// This language written out for a reader: its English name, followed by
    /// its autonym in brackets where it has one.
    pub fn to_string(&self) -> (shown: String)
        ensures
            shown@ == display_form(self.code_3(), Some(self.name()), self.autonym()),
    {
        display(self.to_639_3(), Some(self.to_name()), self.to_autonym())
    }

    /// This language written out for a log: its three-letter code.
    pub fn to_debug_string(&self) -> (shown: String)
        ensures
            shown@ == self.code_3(),
    {
        String::from_str(self.to_639_3())
    }
}

} // verus!
