//! Hexadecimal text, the form in which the signature verifier takes its
//! arguments.

use vstd::prelude::*;

verus! {

/// The lower-case hexadecimal digit of a value below 16.
pub open spec fn hex_digit(nibble: u8) -> char {
    seq!['0', '1', '2', '3', '4', '5', '6', '7', '8', '9', 'a', 'b', 'c', 'd', 'e', 'f'][nibble as int]
}

/// The lower-case hexadecimal text of `data`: two digits for each byte, the
/// high half first.
pub open spec fn hex_lower(data: Seq<u8>) -> Seq<char> {
    Seq::new(
        2 * data.len(),
        |i: int|
            if i % 2 == 0 {
                hex_digit(data[i / 2] >> 4)
            } else {
                hex_digit(data[i / 2] & 0x0f)
            },
    )
}

/// Calls `hex::encode`. Trusted: the result is the lower-case hexadecimal
/// text of the input, two digits for each byte, the high half first.
#[verifier::external_body]
pub(crate) fn hex_encode(data: &[u8]) -> (text: String)
    ensures
        text@ == hex_lower(data@),
{
    hex::encode(data)
}

/// The lower-case hexadecimal text of `data`.
pub fn to_hex(data: &[u8]) -> (text: String)
    ensures
        text@ == hex_lower(data@),
        text@.len() == 2 * data@.len(),
{
    hex_encode(data)
}

} // verus!
