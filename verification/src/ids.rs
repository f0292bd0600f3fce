//! Object ids: the canonical 24-hex-digit text form, parsing through
//! bson's `ObjectId`, and generation of fresh ids for stored records.

use vstd::prelude::*;

use crate::error::ApiError;

verus! {

/// A hexadecimal digit, in either case.
pub open spec fn is_hex_digit(c: char) -> bool {
    ('0' as int <= c as int <= '9' as int) || ('a' as int <= c as int <= 'f' as int) || (
    'A' as int <= c as int <= 'F' as int)
}

/// The text form of an object id: exactly 24 hexadecimal digits.
pub open spec fn is_object_id_hex(s: Seq<char>) -> bool {
    s.len() == 24 && forall|i: int| 0 <= i < s.len() ==> is_hex_digit(#[trigger] s[i])
}

#[verifier::external_type_specification]
#[verifier::external_body]
pub struct ExObjectId(bson::oid::ObjectId);

/// Relies on bson's `ObjectId::parse_str`: it hex-decodes the string's
/// bytes and then demands twelve bytes, so it succeeds exactly on
/// strings of 24 hexadecimal digits.
#[verifier::external_body]
fn parse_object_id(s: &str) -> (r: Option<bson::oid::ObjectId>)
    ensures
        r is Some <==> is_object_id_hex(s@),
{
    bson::oid::ObjectId::parse_str(s).ok()
}

/// Relies on bson's `ObjectId::new`: a fresh id built from the current
/// time, a process id and a counter; nothing is assumed of the value.
#[verifier::external_body]
fn new_object_id() -> bson::oid::ObjectId {
    bson::oid::ObjectId::new()
}

/// Relies on bson's `ObjectId::to_hex`: the hex encoding of the id's
/// twelve bytes, hence 24 hexadecimal digits.
#[verifier::external_body]
fn object_id_to_hex(id: bson::oid::ObjectId) -> (r: String)
    ensures
        is_object_id_hex(r@),
{
    id.to_hex()
}

/// Parse a route's id segment; a string that is not the text form of an
/// object id names nothing and is reported as not found.
pub fn object_id_from_string(id: &str) -> (r: Result<bson::oid::ObjectId, ApiError>)
    ensures
        r is Ok <==> is_object_id_hex(id@),
        r matches Err(e) ==> e matches ApiError::NotFound,
{
    match parse_object_id(id) {
        Some(oid) => Ok(oid),
        None => Err(ApiError::NotFound),
    }
}

/// A fresh record id in its text form.
pub fn new_object_id_hex() -> (r: String)
    ensures
        is_object_id_hex(r@),
{
    object_id_to_hex(new_object_id())
}

} // verus!
