//! Text forms of slate ids and of serialized transactions.
use vstd::prelude::*;
use vstd::arithmetic::power::pow;

verus! {

/// The lowercase hexadecimal digit for a value in `0..16`.
pub open spec fn hex_digit(n: int) -> char {
    if n < 10 {
        (48 + n) as char
    } else {
        (87 + n) as char
    }
}

/// Lowercase hexadecimal text of a byte string, two digits per byte.
pub open spec fn hex_text(bytes: Seq<u8>) -> Seq<char>
    decreases bytes.len(),
{
    if bytes.len() == 0 {
        seq![]
    } else {
        hex_text(bytes.drop_last()) + seq![
            hex_digit(bytes.last() as int / 16),
            hex_digit(bytes.last() as int % 16),
        ]
    }
}

/// The `k`-th hexadecimal digit (from the most significant) of a 128-bit id.
pub open spec fn uuid_nibble(id: u128, k: int) -> int {
    (id as int / pow(16, (31 - k) as nat)) % 16
}

/// The digits `from..to` of a 128-bit id, as lowercase hexadecimal text.
pub open spec fn uuid_digits(id: u128, from: int, to: int) -> Seq<char> {
    Seq::new((to - from) as nat, |i: int| hex_digit(uuid_nibble(id, from + i)))
}

/// The hyphenated lowercase text form of a UUID given by its 128-bit value,
/// grouped 8-4-4-4-12.
pub open spec fn uuid_text(id: u128) -> Seq<char> {
    uuid_digits(id, 0, 8) + seq!['-'] + uuid_digits(id, 8, 12) + seq!['-'] + uuid_digits(id, 12, 16)
        + seq!['-'] + uuid_digits(id, 16, 20) + seq!['-'] + uuid_digits(id, 20, 32)
}

/// Calls `uuid::Uuid::from_u128` and the `Display` of `Uuid`, which writes the
/// hyphenated lowercase form of the big-endian bytes of the value.
#[verifier::external_body]
pub(crate) fn uuid_string(id: u128) -> (s: String)
    ensures
        s@ == uuid_text(id),
{
    uuid::Uuid::from_u128(id).to_string()
}

/// Calls `grin_util::ToHex::to_hex`, which writes each byte as two lowercase
/// hexadecimal digits.
#[verifier::external_body]
pub(crate) fn hex_string(bytes: &Vec<u8>) -> (s: String)
    ensures
        s@ == hex_text(bytes@),
{
    grin_util::ToHex::to_hex(bytes)
}

} // verus!
