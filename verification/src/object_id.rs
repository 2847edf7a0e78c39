//! Validity of document ids in their hex string form.
//!
//! The store addresses documents by a 12-byte id, carried through the
//! system as its 24-character hexadecimal form. Whether a string is such a
//! form is stated exactly, and checked by the store driver's own parser.

use vstd::prelude::*;
use crate::error::AppError;

verus! {

/// A hexadecimal digit, either case.
pub open spec fn is_hex_char(c: char) -> bool {
    ('0' <= c && c <= '9') || ('a' <= c && c <= 'f') || ('A' <= c && c <= 'F')
}

/// A well-formed document id: exactly 24 hexadecimal characters.
pub open spec fn spec_valid_object_id(s: Seq<char>) -> bool {
    s.len() == 24 && (forall|i: int| 0 <= i < 24 ==> is_hex_char(s[i]))
}

/// Relies on `bson::oid::ObjectId::parse_str`, which accepts exactly a
/// 24-character hexadecimal string.
#[verifier::external_body]
pub fn is_valid_object_id(s: &str) -> (r: bool)
    ensures
        r == spec_valid_object_id(s@),
{
    bson::oid::ObjectId::parse_str(s).is_ok()
}

/// Check an id taken from a path or a token, reporting a caller-chosen
/// error when it is not a well-formed document id.
pub fn check_object_id(s: &str, on_invalid: AppError) -> (r: Result<(), AppError>)
    ensures
        r is Ok <==> spec_valid_object_id(s@),
        r matches Err(e) ==> e == on_invalid,
{
    if is_valid_object_id(s) {
        Ok(())
    } else {
        Err(on_invalid)
    }
}

} // verus!
