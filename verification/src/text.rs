//! Decoding the UTF-8 text that arrives through C strings.
use vstd::prelude::*;
use vstd::utf8::{decode_utf8, valid_utf8};

verus! {

/// The text of the error `std::str::from_utf8` reports for `bytes`
/// (its `Display`, which depends on the bytes alone).
pub uninterp spec fn utf8_error_text(bytes: Seq<u8>) -> Seq<char>;

/// `std::str::from_utf8` followed by an owned copy.  The standard library documents
/// that it succeeds exactly when the bytes are well-formed UTF-8 and that the string
/// then holds the decoded characters; the text of its error is only named here.
#[verifier::external_body]
pub(crate) fn decode_utf8_bytes(bytes: &[u8]) -> (res: Result<String, String>)
    ensures
        res is Ok <==> valid_utf8(bytes@),
        res matches Ok(s) ==> s@ == decode_utf8(bytes@),
        res matches Err(t) ==> t@ == utf8_error_text(bytes@),
{
    match std::str::from_utf8(bytes) {
        Ok(s) => Ok(s.to_owned()),
        Err(e) => Err(e.to_string()),
    }
}

} // verus!
