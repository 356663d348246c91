//! The text that labels a peer, as handed in by a host application.

use vstd::prelude::*;
use vstd::utf8::{decode_utf8, valid_utf8};

verus! {

/// The label used by the entry points that take no identifier.
pub const DEFAULT_IDENTIFIER: &'static str = "bob";

/// What a raw identifier stands for: nothing when the host handed no buffer,
/// nothing when its bytes are not UTF-8, and the decoded text otherwise.
pub open spec fn decoded_identifier(raw: Option<Seq<u8>>) -> Option<Seq<char>> {
    match raw {
        None => None,
        Some(bytes) => if valid_utf8(bytes) {
            Some(decode_utf8(bytes))
        } else {
            None
        },
    }
}

/// The bytes of a raw identifier, if there is a buffer.
pub open spec fn raw_bytes(raw: Option<Vec<u8>>) -> Option<Seq<u8>> {
    match raw {
        None => None,
        Some(b) => Some(b@),
    }
}

/// Relies on `String::from_utf8`: it succeeds exactly on valid UTF-8, and
/// the string then holds the characters those bytes encode.
#[verifier::external_body]
fn utf8_string(bytes: Vec<u8>) -> (r: Option<String>)
    ensures
        r is Some <==> valid_utf8(bytes@),
        r matches Some(s) ==> s@ == decode_utf8(bytes@),
{
    String::from_utf8(bytes).ok()
}

/// Turns the identifier handed in by a host into text: `None` for a missing
/// buffer or for bytes that are not UTF-8.
pub fn decode_identifier(raw: Option<Vec<u8>>) -> (r: Option<String>)
    ensures
        r is Some <==> decoded_identifier(raw_bytes(raw)) is Some,
        r matches Some(s) ==> decoded_identifier(raw_bytes(raw)) == Some(s@),
{
    match raw {
        None => None,
        Some(bytes) => utf8_string(bytes),
    }
}

} // verus!
