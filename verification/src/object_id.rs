//! Identifiers of the registry's records: twelve bytes, written as 24
//! hexadecimal digits.

use vstd::prelude::*;

verus! {

pub open spec fn is_lower_hex_digit(c: char) -> bool {
    '0' <= c <= '9' || 'a' <= c <= 'f'
}

pub open spec fn is_hex_digit(c: char) -> bool {
    '0' <= c <= '9' || 'a' <= c <= 'f' || 'A' <= c <= 'F'
}

/// The hexadecimal digit in lower case.
pub open spec fn lower_hex_digit(c: char) -> char {
    if c == 'A' {
        'a'
    } else if c == 'B' {
        'b'
    } else if c == 'C' {
        'c'
    } else if c == 'D' {
        'd'
    } else if c == 'E' {
        'e'
    } else if c == 'F' {
        'f'
    } else {
        c
    }
}

/// The text of an identifier as the registry writes it: 24 hexadecimal
/// digits in lower case.
pub open spec fn is_object_id_text(text: Seq<char>) -> bool {
    &&& text.len() == 24
    &&& forall|i: int| 0 <= i < text.len() ==> is_lower_hex_digit(#[trigger] text[i])
}

/// The text names an identifier: it is 24 hexadecimal digits of either case.
pub open spec fn names_object_id(text: Seq<char>) -> bool {
    &&& text.len() == 24
    &&& forall|i: int| 0 <= i < text.len() ==> is_hex_digit(#[trigger] text[i])
}

/// The identifier that a text names, as the registry writes it.
pub open spec fn object_id_of(text: Seq<char>) -> Seq<char> {
    text.map_values(|c: char| lower_hex_digit(c))
}

/// Makes an identifier that no record has, with
/// `mongodb::bson::oid::ObjectId::new`, and writes it out with `to_hex`: the
/// twelve bytes as lower-case hexadecimal digits.
#[verifier::external_body]
pub(crate) fn fresh_object_id() -> (id: String)
    ensures
        is_object_id_text(id@),
{
    mongodb::bson::oid::ObjectId::new().to_hex()
}

/// Reads an identifier with `mongodb::bson::oid::ObjectId::parse_str`, which
/// accepts exactly the texts of 24 hexadecimal digits, upper or lower case,
/// and writes it out again with `to_hex`, in lower case.
#[verifier::external_body]
pub(crate) fn parse_object_id(text: &str) -> (id: Option<String>)
    ensures
        id.is_some() == names_object_id(text@),
        id matches Some(hex) ==> hex@ == object_id_of(text@),
{
    match mongodb::bson::oid::ObjectId::parse_str(text) {
        Ok(id) => Some(id.to_hex()),
        Err(_) => None,
    }
}

} // verus!
