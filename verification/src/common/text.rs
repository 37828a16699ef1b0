//! Bytes as text.

use vstd::prelude::*;
use vstd::utf8::decode_utf8;
use vstd::utf8::valid_utf8;

verus! {

/// What `std::str::Utf8Error` displays for bytes that are not UTF-8.
pub uninterp spec fn utf8_fault(bytes: Seq<u8>) -> Seq<char>;

/// Reads bytes as UTF-8 with `std::str::from_utf8`. Valid bytes give the
/// text they encode; any others give the display text of the error.
#[verifier::external_body]
pub(crate) fn utf8_text(bytes: &[u8]) -> (r: Result<String, String>)
    ensures
        r is Ok <==> valid_utf8(bytes@),
        r matches Ok(text) ==> text@ == decode_utf8(bytes@),
        r matches Err(fault) ==> fault@ == utf8_fault(bytes@),
{
    match std::str::from_utf8(bytes) {
        Ok(text) => Ok(text.to_string()),
        Err(e) => Err(e.to_string()),
    }
}

/// The text that bytes stand for, or why they stand for none.
pub open spec fn spec_read_text(bytes: Seq<u8>) -> Result<Seq<char>, Seq<char>> {
    if valid_utf8(bytes) {
        Ok(decode_utf8(bytes))
    } else {
        Err(utf8_fault(bytes))
    }
}

/// The model of a text or a complaint.
pub open spec fn text_result_view(r: Result<String, String>) -> Result<Seq<char>, Seq<char>> {
    match r {
        Ok(text) => Ok(text@),
        Err(fault) => Err(fault@),
    }
}

/// Reads bytes as UTF-8 text.
pub fn read_text(bytes: &[u8]) -> (r: Result<String, String>)
    ensures
        text_result_view(r) == spec_read_text(bytes@),
{
    utf8_text(bytes)
}

/// `left` followed by `right`.
pub fn joined(left: &str, right: &str) -> (r: String)
    ensures
        r@ == left@ + right@,
{
    let mut text = left.to_string();
    text.append(right);
    text
}

} // verus!
