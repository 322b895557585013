//! Reading a language from text that may hold either of its codes or its
//! name in lower case.

use vstd::prelude::*;
use vstd::string::StringExecFns;
use crate::codes::has_code_3;
use crate::search::lemma_first_match;
use crate::table::Language;

verus! {

/// The text that was given where a language was expected, and is neither a
/// code nor a lower-case name of any language.
#[derive(Debug)]
pub struct ParseLanguageError(String);

impl View for ParseLanguageError {
    type V = Seq<char>;

    /// The text that could not be read.
    closed spec fn view(&self) -> Seq<char> {
        self.0@
    }
}

/// What the message of an error says about the text `input`.
pub open spec fn error_message(input: Seq<char>) -> Seq<char> {
    "'"@ + input + "' is not a valid ISO 639-1 or 639-3 code."@
}

impl ParseLanguageError {
    /// The text that could not be read.
    pub fn input(&self) -> (input: &str)
        ensures
            input@ == self@,
    {
        self.0.as_str()
    }

    /// The message of this error.
    pub fn to_string(&self) -> (message: String)
        ensures
            message@ == error_message(self@),
    {
        let mut message = String::from_str("'");
        message.append(self.0.as_str());
        message.append("' is not a valid ISO 639-1 or 639-3 code.");
        message
    }
}

impl Language {
    /// The language that the text `s` stands for: the one with the
    /// three-letter code `s`; if there is none, the one with the two-letter
    /// code `s`; if there is none, the first with the lower-case English name
    /// `s`.
    pub open spec fn parse(s: Seq<char>) -> Option<Language> {
        if Language::find_code_3(s) is Some {
            Language::find_code_3(s)
        } else if Language::find_code_1(s) is Some {
            Language::find_code_1(s)
        } else {
            Language::find_name_lowercase(s)
        }
    }

    /// Each code of a language is read back as that language.
    pub proof fn lemma_parse_codes(self)
        ensures
            Language::parse(self.code_3()) == Some(self),
            self.code_1() matches Some(code) ==> Language::parse(code) == Some(self),
    {
        self.lemma_find_code_3();
        self.lemma_find_code_1();
        if let Some(code) = self.code_1() {
            self.lemma_code_1_letters();
            if let Some(other) = Language::find_code_3(code) {
                lemma_first_match(has_code_3(code));
                other.lemma_code_3_letters();
            }
        }
    }

    /// Reads a language from a three-letter code, a two-letter code or an
    /// English name in lower case, tried in this order. Text that is none of
    /// them comes back in the error.
    pub fn from_str(s: &str) -> (r: Result<Language, ParseLanguageError>)
        ensures
            match r {
                Ok(l) => Language::parse(s@) == Some(l),
                Err(e) => Language::parse(s@) is None && e@ == s@,
            },
    {
        if let Some(l) = Language::from_639_3(s) {
            return Ok(l);
        }
        if let Some(l) = Language::from_639_1(s) {
            return Ok(l);
        }
        match Language::from_name_lowercase(s) {
            Some(l) => Ok(l),
            None => Err(ParseLanguageError(s.to_owned())),
        }
    }
}

impl Default for Language {
    /// The language of text whose language is not known.
    fn default() -> (l: Language)
        ensures
            l == Language::Und,
    {
        Language::Und
    }
}

} // verus!
