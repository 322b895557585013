//! What an adapter for serialization or for storage needs from the library.
//!
//! A language is written as its three-letter code. It is read back from
//! text that holds either of its codes or its name in lower case, or from
//! the bytes of such text. A column of a database holds the three-letter
//! code and nothing else.

use vstd::prelude::*;
use vstd::slice::slice_to_vec;
use vstd::string::StringSliceAdditionalSpecFns;
use vstd::utf8::{decode_utf8, decode_utf8_encode_utf8, valid_utf8};
use crate::table::Language;

verus! {

/// Why a language could not be read back.
#[derive(Debug)]
pub enum DecodeError {
    /// The text is neither a code nor a lower-case name of a language.
    UnknownCode(String),
    /// The bytes are not text in UTF-8.
    InvalidBytes(Vec<u8>),
}

/// The text of a column that holds no three-letter code of a language.
#[derive(Debug)]
pub struct UnknownColumn(pub String);

/// Reads bytes as text with `std::str::from_utf8`.
///
/// The text is returned if and only if the bytes are valid UTF-8, and it
/// then has exactly these bytes.
#[verifier::external_body]
fn text_of(bytes: &[u8]) -> (text: Option<&str>)
    ensures
        (text is Some) == valid_utf8(bytes@),
        text matches Some(s) ==> s.spec_bytes() == bytes@,
{
    std::str::from_utf8(bytes).ok()
}

impl Language {
    /// Reads back a language that was written as text.
    pub fn decode_str(text: &str) -> (r: Result<Language, DecodeError>)
        ensures
            match r {
                Ok(l) => Language::parse(text@) == Some(l),
                Err(DecodeError::UnknownCode(given)) => Language::parse(text@) is None && given@
                    == text@,
                Err(DecodeError::InvalidBytes(_)) => false,
            },
    {
        match Language::from_str(text) {
            Ok(l) => Ok(l),
            Err(_) => Err(DecodeError::UnknownCode(text.to_owned())),
        }
    }

    /// Reads back a language that was written as text, from the bytes of
    /// that text.
    pub fn decode_bytes(bytes: &[u8]) -> (r: Result<Language, DecodeError>)
        ensures
            match r {
                Ok(l) => valid_utf8(bytes@) && Language::parse(decode_utf8(bytes@)) == Some(l),
                Err(DecodeError::UnknownCode(given)) => valid_utf8(bytes@) && Language::parse(
                    decode_utf8(bytes@),
                ) is None && given@ == decode_utf8(bytes@),
                Err(DecodeError::InvalidBytes(given)) => !valid_utf8(bytes@) && given@ == bytes@,
            },
    {
        match text_of(bytes) {
            Some(text) => {
                proof {
                    decode_utf8_encode_utf8(bytes@);
                    vstd::utf8::encode_utf8_decode_utf8(text@);
                }
                Language::decode_str(text)
            },
            None => Err(DecodeError::InvalidBytes(slice_to_vec(bytes))),
        }
    }

    /// Reads a language from the text of a column, which holds its
    /// three-letter code.
    pub fn from_column(text: &str) -> (r: Result<Language, UnknownColumn>)
        ensures
            match r {
                Ok(l) => Language::find_code_3(text@) == Some(l),
                Err(e) => Language::find_code_3(text@) is None && e.0@ == text@,
            },
    {
        match Language::from_639_3(text) {
            Some(l) => Ok(l),
            None => Err(UnknownColumn(text.to_owned())),
        }
    }
}

} // verus!
