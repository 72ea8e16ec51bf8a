use vstd::prelude::*;

verus! {

/// A 20-byte blockchain account identifier.
#[derive(Clone, Copy, Debug, PartialEq, Eq, Hash, Default)]
pub struct AccountId {
    pub bytes: [u8; 20],
}

/// The lowercase hexadecimal digit for a value below 16.
pub open spec fn hex_digit(n: u8) -> char
    recommends
        n < 16,
{
    if n < 10 {
        ((n + 48) as u8) as char
    } else {
        ((n + 87) as u8) as char
    }
}

/// Two lowercase hexadecimal digits for one byte, high nibble first.
pub open spec fn byte_hex(b: u8) -> Seq<char> {
    seq![hex_digit(b / 16), hex_digit(b % 16)]
}

/// The short form in which an account is shown: `0x`, the first two bytes in
/// hex, an ellipsis, and the last two bytes in hex.
pub open spec fn label_of(bytes: Seq<u8>) -> Seq<char>
    recommends
        bytes.len() == 20,
{
    seq!['0', 'x'] + byte_hex(bytes[0]) + byte_hex(bytes[1]) + seq!['\u{2026}'] + byte_hex(bytes[18])
        + byte_hex(bytes[19])
}

/// Relies on the `Display` impl of `web3::types::H160`, which writes `0x`, the
/// first two bytes as lowercase hex, an ellipsis, and the last two bytes as lowercase hex.
#[verifier::external_body]
pub(crate) fn h160_display(a: &AccountId) -> (r: String)
    ensures
        r@ == label_of(a.bytes@),
{
    web3::types::H160(a.bytes).to_string()
}

} // verus!
