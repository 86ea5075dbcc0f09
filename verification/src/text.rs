//! Turning the bytes of a chunk into text.

use vstd::prelude::*;
use vstd::utf8::{decode_utf8, valid_utf8};

verus! {

/// The text that std's lossy conversion makes of a byte sequence: the bytes
/// read as UTF-8, with U+FFFD standing in for whatever is not.
pub uninterp spec fn lossy_utf8(bytes: Seq<u8>) -> Seq<char>;

/// The text carried by a payload. Well-formed UTF-8 decodes to exactly the
/// text it encodes; anything else decodes leniently.
pub open spec fn decoded_text(bytes: Seq<u8>) -> Seq<char> {
    if valid_utf8(bytes) {
        decode_utf8(bytes)
    } else {
        lossy_utf8(bytes)
    }
}

/// Calls `String::from_utf8_lossy` and takes ownership of what it returns.
///
/// Trusted: the conversion never fails, its result depends on the bytes
/// alone, and on well-formed UTF-8 it is the text that the bytes encode.
#[verifier::external_body]
fn from_utf8_lossy(bytes: &[u8]) -> (text: String)
    ensures
        text@ == lossy_utf8(bytes@),
        valid_utf8(bytes@) ==> text@ == decode_utf8(bytes@),
{
    String::from_utf8_lossy(bytes).into_owned()
}

/// Decodes a payload as text, never failing: invalid sequences are replaced
/// rather than rejected.
pub fn decode_text(bytes: &[u8]) -> (text: String)
    ensures
        text@ == decoded_text(bytes@),
{
    from_utf8_lossy(bytes)
}

} // verus!
