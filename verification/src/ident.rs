//! Identifiers and their text form.
//!
//! An identifier is a 128-bit number. In the store and on the wire it travels
//! as 32 hexadecimal digits, without prefix or hyphens.

use crate::outside::{parse_uuid, simple_text, uuid_parsed};
use vstd::prelude::*;

verus! {

/// The hexadecimal digit for a value below sixteen, letters in lower case.
pub open spec fn hex_digit(value: u128) -> char {
    "0123456789abcdef"@[value as int]
}

/// The text form of an identifier: its 128 bits as 32 hexadecimal digits,
/// the most significant first, letters in lower case.
pub open spec fn simple_form(id: u128) -> Seq<char> {
    Seq::new(32, |i: int| hex_digit((id >> ((4 * (31 - i)) as u128)) & 0xf))
}

/// Writes an identifier in its text form.
pub fn id_text(id: u128) -> (text: String)
    ensures
        text@ == simple_form(id),
{
    simple_text(id)
}

/// Reads an identifier from a text, if the text is one.
pub fn parse_id(text: &str) -> (id: Option<u128>)
    ensures
        id == uuid_parsed(text@),
{
    parse_uuid(text)
}

} // verus!
