//! Decoding stored bytes as text.

use vstd::prelude::*;
use crate::Error;

verus! {

/// What decoding a byte sequence as UTF-8 yields: the character
/// sequence when the bytes are valid text, nothing otherwise.
pub uninterp spec fn utf8_decode(b: Seq<u8>) -> Option<Seq<char>>;

/// Relies on String::from_utf8: it returns the decoded string exactly
/// when the bytes are valid UTF-8, a function of the bytes alone.
#[verifier::external_body]
fn bytes_to_string(b: &Vec<u8>) -> (r: Result<String, Error>)
    ensures
        match r {
            Ok(s) => utf8_decode(b@) == Some(s@),
            Err(e) => utf8_decode(b@) is None && e == Error::Decode,
        },
{
    match String::from_utf8(b.clone()) {
        Ok(s) => Ok(s),
        Err(_) => Err(Error::Decode),
    }
}

/// Decodes bytes as text, failing with a decode error exactly when
/// they are not valid UTF-8.
pub fn decode_text(bytes: &Vec<u8>) -> (r: Result<String, Error>)
    ensures
        match r {
            Ok(s) => utf8_decode(bytes@) == Some(s@),
            Err(e) => utf8_decode(bytes@) is None && e == Error::Decode,
        },
{
    bytes_to_string(bytes)
}

} // verus!
