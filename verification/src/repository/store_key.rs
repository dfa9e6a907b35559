//! The keys of the document store, and the texts that name them.

use crate::error::{ApiError, ApiErrorKind};
use vstd::prelude::*;

verus! {

/// The key that the document store assigns to a record. The library carries
/// it and never looks inside.
#[verifier::external_type_specification]
#[verifier::external_body]
pub struct ExObjectId(mongodb::bson::oid::ObjectId);

/// A hexadecimal digit, in either case.
pub open spec fn is_hex_digit(c: char) -> bool {
    ('0' <= c <= '9') || ('a' <= c <= 'f') || ('A' <= c <= 'F')
}

/// Whether `id` is written as the store writes its keys: 24 hexadecimal
/// digits.
pub open spec fn is_store_key(id: Seq<char>) -> bool {
    &&& id.len() == 24
    &&& forall|i: int| 0 <= i < id.len() ==> is_hex_digit(#[trigger] id[i])
}

/// The key that the text `id` names, where it is written as a key: what
/// `mongodb::bson::oid::ObjectId::parse_str` makes of it. The same text names
/// the same key always.
pub uninterp spec fn key_named_by(id: Seq<char>) -> mongodb::bson::oid::ObjectId;

/// The key that a text may name, if it names one.
pub open spec fn named_key(id: Seq<char>) -> Option<mongodb::bson::oid::ObjectId> {
    if is_store_key(id) {
        Some(key_named_by(id))
    } else {
        None
    }
}

/// The key that `id` is the text of, as
/// `mongodb::bson::oid::ObjectId::parse_str` reads it: there is one exactly
/// when `id` is 24 hexadecimal digits, and it is the key that the text
/// names.
#[verifier::external_body]
fn parse_object_id(id: &str) -> (key: Option<mongodb::bson::oid::ObjectId>)
    ensures
        key is Some <==> is_store_key(id@),
        key matches Some(k) ==> k == key_named_by(id@),
{
    mongodb::bson::oid::ObjectId::parse_str(id).ok()
}

/// The key that `id` names, if it is written as a key.
pub fn store_key(id: &str) -> (key: Option<mongodb::bson::oid::ObjectId>)
    ensures
        key == named_key(id@),
{
    parse_object_id(id)
}

/// The key that `id` names. A text that is not written as a key is refused
/// as malformed.
pub fn checked_store_key(id: &str) -> (r: Result<mongodb::bson::oid::ObjectId, ApiError>)
    ensures
        r is Ok <==> is_store_key(id@),
        r matches Ok(key) ==> key == key_named_by(id@),
        r matches Err(e) ==> e.is(ApiErrorKind::ValidationError, "Invalid ID format"@),
{
    match parse_object_id(id) {
        Some(key) => Ok(key),
        None => Err(ApiError::ValidationError("Invalid ID format".to_owned())),
    }
}

} // verus!
