//! Reading values out of the raw bytes that an external command hands
//! back.
//!
//! The decode is strict: bytes that are not valid UTF-8 are an error,
//! never silently replaced.

use vstd::prelude::*;
use vstd::utf8::{decode_utf8, valid_utf8};

verus! {

/// Relies on `String::from_utf8`: decodes the bytes strictly, so it
/// succeeds exactly on valid UTF-8, and the decoded text is the
/// decoding of the bytes.  A failure comes back as the error's text.
#[verifier::external_body]
fn string_from_utf8(bytes: Vec<u8>) -> (r: Result<String, String>)
    ensures
        r matches Ok(s) ==> valid_utf8(bytes@) && s@ == decode_utf8(bytes@),
        r is Err ==> !valid_utf8(bytes@),
{
    String::from_utf8(bytes).map_err(|error| error.to_string())
}

/// Reading a value of a type out of a buffer of raw bytes.
pub trait TryFromIo: Sized {
    /// Reads a value of this type out of the given bytes, or reports
    /// why the bytes do not spell one.
    fn try_from_io(bytes: Vec<u8>) -> Result<Self, String>;
}

impl TryFromIo for String {
    /// Decodes the bytes as strict UTF-8: text that is not valid UTF-8
    /// is an error, never silently replaced.
    fn try_from_io(bytes: Vec<u8>) -> (r: Result<Self, String>)
        ensures
            r matches Ok(s) ==> valid_utf8(bytes@) && s@ == decode_utf8(bytes@),
            r is Err ==> !valid_utf8(bytes@),
    {
        string_from_utf8(bytes)
    }
}

} // verus!
