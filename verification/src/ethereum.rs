//! The ledger: what its values look like, and the calls that are made to the
//! contracts on it.

pub mod canvas;

use vstd::prelude::*;
use crate::domain::price::is_digit;
use crate::text::{after, has_prefix};

verus! {

/// The gas limit of every transaction that the service sends.
pub const GAS_LIMIT: i64 = 8000000;

/// The gas price of every transaction that the service sends.
pub const GAS_PRICE: i64 = 25000000000;

/// The number that a text of decimal digits stands for.
pub open spec fn decimal_value(digits: Seq<char>) -> nat
    decreases digits.len(),
{
    if digits.len() == 0 {
        0
    } else {
        decimal_value(digits.drop_last()) * 10 + ((digits.last() as nat) - ('0' as nat)) as nat
    }
}

/// The first number that does not fit in 256 bits.
pub open spec fn u256_bound() -> nat {
    0x1_0000_0000_0000_0000_0000_0000_0000_0000_0000_0000_0000_0000_0000_0000_0000_0000nat
}

/// Whether the text is an unsigned 256-bit integer in decimal: digits only,
/// and a number that fits. The empty text stands for zero.
pub open spec fn is_u256_decimal(text: Seq<char>) -> bool {
    &&& forall|i: int| 0 <= i < text.len() ==> is_digit(#[trigger] text[i])
    &&& decimal_value(text) < u256_bound()
}

/// Whether `c` is a hexadecimal digit, in either case.
pub open spec fn is_hex_digit(c: char) -> bool {
    is_digit(c) || ('a' <= c <= 'f') || ('A' <= c <= 'F')
}

/// Whether `c` is one of the four blanks that may stand among the digits of an
/// address: space, carriage return, line feed, tab.
pub open spec fn is_blank(c: char) -> bool {
    c == ' ' || c == '\r' || c == '\n' || c == '\t'
}

/// How many hexadecimal digits the text holds.
pub open spec fn hex_digits(text: Seq<char>) -> nat
    decreases text.len(),
{
    if text.len() == 0 {
        0
    } else {
        hex_digits(text.drop_last()) + if is_hex_digit(text.last()) {
            1nat
        } else {
            0nat
        }
    }
}

/// The text without one leading `0x`, where it has one.
pub open spec fn unprefixed(text: Seq<char>) -> Seq<char> {
    if has_prefix(text, "0x"@) {
        after(text, "0x"@.len())
    } else {
        text
    }
}

/// Whether the text is an address of the ledger: after one leading `0x`, which
/// may be left out, nothing but hexadecimal digits and blanks, and of the
/// digits exactly forty.
pub open spec fn is_address(text: Seq<char>) -> bool {
    &&& forall|i: int|
        0 <= i < unprefixed(text).len() ==> is_hex_digit(#[trigger] unprefixed(text)[i])
            || is_blank(unprefixed(text)[i])
    &&& hex_digits(unprefixed(text)) == 40
}

/// Calls `ethers::types::U256::from_dec_str` and reports whether it
/// succeeded. It reads the text digit by digit and fails on the first byte
/// that is no decimal digit, or where the number no longer fits in 256 bits.
#[verifier::external_body]
pub(crate) fn parses_as_u256(text: &str) -> (ok: bool)
    ensures
        ok == is_u256_decimal(text@),
{
    ethers::types::U256::from_dec_str(text).is_ok()
}

/// Parses the text as an `ethers::types::Address` and reports whether that
/// succeeded. The parser strips one leading `0x`, then reads twenty bytes of
/// two hexadecimal digits each, passing over blanks, fails on any other
/// character, and fails where digits are left over.
#[verifier::external_body]
pub(crate) fn parses_as_address(text: &str) -> (ok: bool)
    ensures
        ok == is_address(text@),
{
    text.parse::<ethers::types::Address>().is_ok()
}

} // verus!
