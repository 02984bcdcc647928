//! Translation of foreign status codes into descriptive error values.
//!
//! Every failure the foreign engine reports is a small non-zero integer.  The
//! unverified shell looks the matching message up in the engine's own string
//! table and hands the raw bytes here; this module builds the one uniform
//! error value the library uses, decoding the message leniently so that a bad
//! byte sequence can never turn a reported failure into a second failure.

use vstd::prelude::*;
use crate::text::lossy_text;
use crate::text::decode_lossy;

verus! {

/// A failure reported by the foreign engine: the status code it returned and
/// a best-effort human-readable description.  The description is absent when
/// the engine's string table had no entry for the code.
#[derive(Clone, Debug, PartialEq, Eq)]
pub struct Error {
    pub code: usize,
    pub desc: Option<String>,
}

/// `e` is the translation of status code `code` whose raw message bytes from
/// the foreign string table were `raw` (`None` when the table had no entry):
/// the code is carried verbatim and the description is the lossy decoding of
/// the message, present exactly when a message was, and never silently empty
/// for a non-empty message.
pub open spec fn is_translation(e: Error, code: usize, raw: Option<Vec<u8>>) -> bool {
    &&& e.code == code
    &&& match raw {
        Some(b) => e.desc matches Some(d) && d@ == lossy_text(b@) && (b@.len() > 0 ==> d@.len()
            > 0),
        None => e.desc is None,
    }
}

/// Two error values carry the same code and the same description text.
pub open spec fn error_eq(a: Error, b: Error) -> bool {
    &&& a.code == b.code
    &&& (a.desc is Some) == (b.desc is Some)
    &&& a.desc matches Some(d1) ==> b.desc matches Some(d2) && d1@ == d2@
}

impl Error {
    /// Build the error value for a foreign status code, given the raw bytes
    /// of the engine's message for that code (`None` when the engine offered
    /// no message).  Never fails, whatever the code or the bytes.
    pub fn translate(code: usize, raw: Option<Vec<u8>>) -> (e: Error)
        ensures
            is_translation(e, code, raw),
    {
        let desc = match &raw {
            Some(b) => Some(decode_lossy(b)),
            None => None,
        };
        Error { code, desc }
    }
}

} // verus!
