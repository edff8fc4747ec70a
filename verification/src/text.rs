//! Text and number fields inside a message.

use vstd::prelude::*;
use vstd::slice::slice_to_vec;
use vstd::utf8::decode_utf8;
use vstd::utf8::valid_utf8;

verus! {

/// The text of a field: its bytes read as UTF-8, or `UNKNOWN` when they are
/// not UTF-8.
pub open spec fn text_spec(bytes: Seq<u8>) -> Seq<char> {
    if valid_utf8(bytes) {
        decode_utf8(bytes)
    } else {
        "UNKNOWN"@
    }
}

/// Calls `String::from_utf8` of the standard library. Trusted: it gives a
/// string exactly when the bytes are valid UTF-8, and the string is then the
/// text that the bytes encode.
#[verifier::external_body]
fn utf8_string(bytes: Vec<u8>) -> (r: Option<String>)
    ensures
        r is Some <==> valid_utf8(bytes@),
        r matches Some(s) ==> s@ == decode_utf8(bytes@),
{
    match String::from_utf8(bytes) {
        Ok(s) => Some(s),
        Err(_) => None,
    }
}

/// Reads a text field. Bytes that are not UTF-8 read as `UNKNOWN`.
pub fn bin_to_str(bin: &[u8]) -> (s: String)
    ensures
        s@ == text_spec(bin@),
{
    match utf8_string(slice_to_vec(bin)) {
        Some(s) => s,
        None => "UNKNOWN".to_owned(),
    }
}

/// The number that eight bytes spell, highest byte first.
pub open spec fn be_u64_spec(bytes: Seq<u8>) -> int {
    bytes[0] * 0x0100_0000_0000_0000 + bytes[1] * 0x0001_0000_0000_0000 + bytes[2]
        * 0x0000_0100_0000_0000 + bytes[3] * 0x0000_0001_0000_0000 + bytes[4] * 0x0000_0000_0100_0000
        + bytes[5] * 0x0000_0000_0001_0000 + bytes[6] * 0x0000_0000_0000_0100 + bytes[7]
}

/// Reads a number of eight bytes, highest byte first.
pub(crate) fn be_u64(bytes: &[u8]) -> (value: u64)
    requires
        bytes@.len() == 8,
    ensures
        value == be_u64_spec(bytes@),
{
    (bytes[0] as u64) * 0x0100_0000_0000_0000 + (bytes[1] as u64) * 0x0001_0000_0000_0000 + (
    bytes[2] as u64) * 0x0000_0100_0000_0000 + (bytes[3] as u64) * 0x0000_0001_0000_0000 + (
    bytes[4] as u64) * 0x0000_0000_0100_0000 + (bytes[5] as u64) * 0x0000_0000_0001_0000 + (
    bytes[6] as u64) * 0x0000_0000_0000_0100 + (bytes[7] as u64)
}

} // verus!
