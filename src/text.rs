//! UTF-8 validation of names and text values.
use core::str::Utf8Error;
use vstd::prelude::*;
use vstd::utf8::{decode_utf8, valid_utf8};

verus! {

/// Relies on `core::str::from_utf8`: it accepts exactly the valid UTF-8
/// sequences, and the text it gives holds the characters they encode.
#[verifier::external_body]
pub(crate) fn utf8_to_string(b: &[u8]) -> (r: Result<String, Utf8Error>)
    ensures
        r is Ok <==> valid_utf8(b@),
        r is Ok ==> r->Ok_0@ == decode_utf8(b@),
{
    match core::str::from_utf8(b) {
        Ok(s) => Ok(s.to_string()),
        Err(e) => Err(e),
    }
}

} // verus!
