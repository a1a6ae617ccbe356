//! Bluetooth addresses in their written form.

use vstd::prelude::*;

verus! {

/// The parts of a text between its colons.
pub open spec fn colon_fields(text: Seq<char>) -> Seq<Seq<char>>
    decreases text.len(),
{
    if text.len() == 0 {
        seq![Seq::empty()]
    } else {
        let rest = colon_fields(text.drop_last());
        if text.last() == ':' {
            rest.push(Seq::empty())
        } else {
            rest.drop_last().push(rest.last().push(text.last()))
        }
    }
}

/// The value of a hexadecimal digit.
pub open spec fn hex_digit(c: char) -> Option<nat> {
    if '0' <= c <= '9' {
        Some((c as int - '0' as int) as nat)
    } else if 'a' <= c <= 'f' {
        Some((c as int - 'a' as int + 10) as nat)
    } else if 'A' <= c <= 'F' {
        Some((c as int - 'A' as int + 10) as nat)
    } else {
        None
    }
}

/// The value of a row of hexadecimal digits; an empty row counts as 0.
pub open spec fn hex_value(digits: Seq<char>) -> Option<nat>
    decreases digits.len(),
{
    if digits.len() == 0 {
        Some(0)
    } else {
        match (hex_value(digits.drop_last()), hex_digit(digits.last())) {
            (Some(high), Some(low)) => Some(high * 16 + low),
            _ => None,
        }
    }
}

/// The byte a field stands for: hexadecimal digits, at least one, with a
/// plus sign or without, and a value below 256.
pub open spec fn field_byte(field: Seq<char>) -> Option<u8> {
    let digits = if field.len() > 0 && field[0] == '+' {
        field.drop_first()
    } else {
        field
    };
    match hex_value(digits) {
        Some(value) => if digits.len() > 0 && value < 256 {
            Some(value as u8)
        } else {
            None
        },
        None => None,
    }
}

/// The address a text stands for: six bytes between colons.
pub open spec fn address_of(text: Seq<char>) -> Option<Seq<u8>> {
    let fields = colon_fields(text);
    if fields.len() == 6 && forall|i: int|
        0 <= i < 6 ==> field_byte(#[trigger] fields[i]) is Some {
        Some(fields.map_values(|field: Seq<char>| field_byte(field)->0))
    } else {
        None
    }
}

/// Reads an address: `bluer::Address` from a string, as its six bytes.
/// Claims that it succeeds exactly on six fields between colons that each
/// are a byte in hexadecimal digits, and gives those bytes in order.
#[verifier::external_body]
pub(crate) fn parse_address(text: &str) -> (address: Option<[u8; 6]>)
    ensures
        match address {
            Some(bytes) => address_of(text@) == Some(bytes@),
            None => address_of(text@) is None,
        },
{
    text.parse::<bluer::Address>().ok().map(|address| address.0)
}

} // verus!
