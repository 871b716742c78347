use vstd::prelude::*;

use crate::bridge::{decode_document, decode_json, document_of_bytes, field_of, json_of, member, str_of, text_of};
use crate::error::ApiError;

verus! {

/// The collection a raw request body names: the text of its top-level
/// `collection` member. The body must decode as JSON and that member must be
/// a string; anything else is a client error.
pub open spec fn collection_of(body: Seq<u8>) -> Result<Seq<char>, ApiError> {
    match json_of(body) {
        None => Err(ApiError::BadRequest),
        Some(v) => match field_of(v, "collection"@) {
            None => Err(ApiError::BadRequest),
            Some(c) => match str_of(c) {
                None => Err(ApiError::BadRequest),
                Some(s) => Ok(s),
            },
        },
    }
}

/// The collection guard: peeks at the raw body for the target collection's name.
/// The body is only borrowed, so the caller hands the same bytes on to the
/// typed decoding that follows. Any string is accepted as a name.
pub fn collection_mw(body: &[u8]) -> (r: Result<String, ApiError>)
    ensures
        match r {
            Ok(name) => collection_of(body@) == Ok::<Seq<char>, ApiError>(name@),
            Err(e) => collection_of(body@) == Err::<Seq<char>, ApiError>(e),
        },
{
    let key = "collection";
    proof {
        reveal_strlit("collection");
    }
    match decode_json(body) {
        Err(_) => Err(ApiError::BadRequest),
        Ok(v) => match member(&v, key) {
            None => Err(ApiError::BadRequest),
            Some(c) => match text_of(c) {
                None => Err(ApiError::BadRequest),
                Some(s) => Ok(s.to_string()),
            },
        },
    }
}

/// Decodes a whole raw body as one document; a body that is not one is a
/// client error.
pub fn bson_mw(body: &[u8]) -> (r: Result<bson::Document, ApiError>)
    ensures
        match document_of_bytes(body@) {
            Some(d) => r == Ok::<bson::Document, ApiError>(d),
            None => r == Err::<bson::Document, ApiError>(ApiError::BadRequest),
        },
{
    match decode_document(body) {
        Ok(d) => Ok(d),
        Err(_) => Err(ApiError::BadRequest),
    }
}

/// A body without a string `collection` member never gets past the guard: it
/// is a client error, so no collection is resolved and the store is not used.
pub proof fn lemma_guard_needs_string_collection(body: Seq<u8>)
    requires
        json_of(body) is None
            || field_of(json_of(body)->0, "collection"@) is None
            || str_of(field_of(json_of(body)->0, "collection"@)->0) is None,
    ensures
        collection_of(body) == Err::<Seq<char>, ApiError>(ApiError::BadRequest),
{
}

} // verus!
