//! Text: comparison, and the rendering of numbers.

use vstd::prelude::*;
use vstd::string::StringExecFns;

verus! {

/// The character for a decimal digit.
pub open spec fn digit_char(digit: int) -> char {
    if digit == 0 {
        '0'
    } else if digit == 1 {
        '1'
    } else if digit == 2 {
        '2'
    } else if digit == 3 {
        '3'
    } else if digit == 4 {
        '4'
    } else if digit == 5 {
        '5'
    } else if digit == 6 {
        '6'
    } else if digit == 7 {
        '7'
    } else if digit == 8 {
        '8'
    } else {
        '9'
    }
}

/// A byte in decimal digits, without leading zeros.
pub open spec fn decimal_text(value: u8) -> Seq<char> {
    if value < 10 {
        seq![digit_char(value as int)]
    } else if value < 100 {
        seq![digit_char((value / 10) as int), digit_char((value % 10) as int)]
    } else {
        seq![
            digit_char((value / 100) as int),
            digit_char((value / 10 % 10) as int),
            digit_char((value % 10) as int),
        ]
    }
}

/// What the standard library's `Debug` writes, in its pretty form (`{:#?}`),
/// for a number that may be missing.
pub uninterp spec fn pretty_option_text(value: Option<u32>) -> Seq<char>;

/// What the standard library's `Debug` writes, in its pretty form (`{:#?}`),
/// for a list of bytes.
pub uninterp spec fn pretty_bytes_text(bytes: Seq<u8>) -> Seq<char>;

/// Compares two string slices with `str`'s `PartialEq::eq`.
///
/// Trusted: the standard library compares the two byte for byte, so the
/// result says whether they hold the same characters.
#[verifier::external_body]
pub(crate) fn str_eq(a: &str, b: &str) -> (same: bool)
    ensures
        same == (a@ == b@),
{
    a == b
}

/// The text of one decimal digit.
fn digit_text(digit: u8) -> (text: &'static str)
    requires
        digit < 10,
    ensures
        text@ == seq![digit_char(digit as int)],
{
    proof {
        reveal_strlit("0");
        reveal_strlit("1");
        reveal_strlit("2");
        reveal_strlit("3");
        reveal_strlit("4");
        reveal_strlit("5");
        reveal_strlit("6");
        reveal_strlit("7");
        reveal_strlit("8");
        reveal_strlit("9");
    }
    let text = match digit {
        0 => "0",
        1 => "1",
        2 => "2",
        3 => "3",
        4 => "4",
        5 => "5",
        6 => "6",
        7 => "7",
        8 => "8",
        _ => "9",
    };
    assert(text@ =~= seq![digit_char(digit as int)]);
    text
}

/// Writes a byte out in decimal digits.
pub(crate) fn decimal(value: u8) -> (text: String)
    ensures
        text@ == decimal_text(value),
{
    let mut text = String::new();
    if value >= 100 {
        text.append(digit_text(value / 100));
    }
    if value >= 10 {
        text.append(digit_text(value / 10 % 10));
    }
    text.append(digit_text(value % 10));
    assert(text@ =~= decimal_text(value));
    text
}

/// Writes a number that may be missing with the standard library's
/// `Debug` for `Option<u32>`, in its pretty form (`{:#?}`).
///
/// Trusted: the text is a function of the value alone.
#[verifier::external_body]
pub(crate) fn pretty_option(value: Option<u32>) -> (text: String)
    ensures
        text@ == pretty_option_text(value),
{
    format!("{:#?}", value)
}

/// Writes a list of bytes with the standard library's `Debug` for
/// `Vec<u8>`, in its pretty form (`{:#?}`).
///
/// Trusted: the text is a function of the bytes alone.
#[verifier::external_body]
pub(crate) fn pretty_bytes(bytes: &Vec<u8>) -> (text: String)
    ensures
        text@ == pretty_bytes_text(bytes@),
{
    format!("{:#?}", bytes)
}

} // verus!
