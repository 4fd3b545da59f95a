//! Universally unique identifiers, held as their 128-bit numbers.

use vstd::prelude::*;

verus! {

/// The lower-case hexadecimal digit for a value below sixteen.
pub open spec fn hex_digit(value: u128) -> char {
    if value < 10 {
        (('0' as u8) + value) as char
    } else {
        (('a' as u8) + value - 10) as char
    }
}

/// The textual form of an identifier: its 32 hexadecimal digits in lower
/// case, most significant first, in groups of 8, 4, 4, 4 and 12 digits that
/// hyphens separate.
pub open spec fn hyphenated(id: u128) -> Seq<char> {
    Seq::new(
        36,
        |i: int|
            if i == 8 || i == 13 || i == 18 || i == 23 {
                '-'
            } else {
                let digit = i - (if i > 8 { 1int } else { 0 }) - (if i > 13 { 1int } else { 0 })
                    - (if i > 18 { 1int } else { 0 }) - (if i > 23 { 1int } else { 0 });
                hex_digit((id >> ((4 * (31 - digit)) as u128)) & 0xf)
            },
    )
}

/// Writes an identifier out through `uuid::Uuid`'s `Display`.
///
/// Trusted: `Uuid::from_u128` takes the number's bytes in big-endian order
/// and `Display` writes them as lower-case hexadecimal digits in the
/// hyphenated layout, which is what [`hyphenated`] says.
#[verifier::external_body]
pub(crate) fn uuid_to_string(id: u128) -> (text: String)
    ensures
        text@ == hyphenated(id),
{
    uuid::Uuid::from_u128(id).to_string()
}

} // verus!
