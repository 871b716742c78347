//! The values this library borrows from serde_json, bson and mongodb, and the
//! few calls into those crates that the translation logic makes.
use vstd::prelude::*;

verus! {

#[verifier::external_type_specification]
#[verifier::external_body]
pub struct ExJsonValue(serde_json::Value);

#[verifier::external_type_specification]
#[verifier::external_body]
pub struct ExJsonError(serde_json::Error);

#[verifier::external_type_specification]
#[verifier::external_body]
pub struct ExDocument(bson::Document);

#[verifier::external_type_specification]
#[verifier::external_body]
pub struct ExBsonSerError(bson::ser::Error);

#[verifier::external_type_specification]
#[verifier::external_body]
pub struct ExWriteConcern(mongodb::options::WriteConcern);

#[verifier::external_type_specification]
#[verifier::external_body]
pub struct ExReadConcern(mongodb::options::ReadConcern);

/// The JSON value that a byte string decodes to, if it is well-formed JSON.
pub uninterp spec fn json_of(b: Seq<u8>) -> Option<serde_json::Value>;

/// The member stored under `key` when `v` is a JSON object that has one.
pub uninterp spec fn field_of(v: serde_json::Value, key: Seq<char>) -> Option<serde_json::Value>;

/// The text of `v` when `v` is a JSON string.
pub uninterp spec fn str_of(v: serde_json::Value) -> Option<Seq<char>>;

/// The document that a JSON value serializes to, if it serializes to one.
pub uninterp spec fn document_of(v: serde_json::Value) -> Option<bson::Document>;

/// Relies on serde_json::from_slice: decodes bytes into a generic JSON value,
/// the same value for the same bytes.
#[verifier::external_body]
pub(crate) fn decode_json(b: &[u8]) -> (r: Result<serde_json::Value, serde_json::Error>)
    ensures
        match r {
            Ok(v) => json_of(b@) == Some(v),
            Err(_) => json_of(b@) is None,
        },
{
    serde_json::from_slice::<serde_json::Value>(b)
}

/// The document a byte string decodes to, if it is JSON text of one document.
pub uninterp spec fn document_of_bytes(b: Seq<u8>) -> Option<bson::Document>;

/// The JSON array that a list of documents serializes to, if it serializes.
pub uninterp spec fn json_of_documents(ds: Seq<bson::Document>) -> Option<serde_json::Value>;

/// Relies on serde_json::from_slice into a bson Document: decodes JSON text of
/// one document, the same document for the same bytes.
#[verifier::external_body]
pub(crate) fn decode_document(b: &[u8]) -> (r: Result<bson::Document, serde_json::Error>)
    ensures
        match r {
            Ok(d) => document_of_bytes(b@) == Some(d),
            Err(_) => document_of_bytes(b@) is None,
        },
{
    serde_json::from_slice::<bson::Document>(b)
}

/// Relies on serde_json::to_value: serializes a list of documents into a JSON
/// array, the same array for the same documents.
#[verifier::external_body]
pub(crate) fn documents_to_json(ds: &Vec<bson::Document>) -> (r: Result<serde_json::Value, serde_json::Error>)
    ensures
        match r {
            Ok(v) => json_of_documents(ds@) == Some(v),
            Err(_) => json_of_documents(ds@) is None,
        },
{
    serde_json::to_value(ds)
}

/// Relies on serde_json::Value::get with a string index: the member under that
/// key, or None when `v` is not an object or has no such member.
#[verifier::external_body]
pub(crate) fn member<'a>(v: &'a serde_json::Value, key: &str) -> (r: Option<&'a serde_json::Value>)
    ensures
        match r {
            Some(m) => field_of(*v, key@) == Some(*m),
            None => field_of(*v, key@) is None,
        },
{
    v.get(key)
}

/// Relies on serde_json::Value::as_str: the text of a JSON string, None for any
/// other kind of value.
#[verifier::external_body]
pub(crate) fn text_of(v: &serde_json::Value) -> (r: Option<&str>)
    ensures
        match r {
            Some(s) => str_of(*v) == Some(s@),
            None => str_of(*v) is None,
        },
{
    v.as_str()
}

/// Relies on bson::to_document: serializes a JSON value into a document, and
/// fails when the value does not serialize to one.
#[verifier::external_body]
pub(crate) fn to_document(v: &serde_json::Value) -> (r: Result<bson::Document, bson::ser::Error>)
    ensures
        match r {
            Ok(d) => document_of(*v) == Some(d),
            Err(_) => document_of(*v) is None,
        },
{
    bson::to_document(v)
}

/// Relies on the derived Clone of mongodb's WriteConcern: a field-by-field copy.
#[verifier::external_body]
pub(crate) fn copy_write_concern(w: &mongodb::options::WriteConcern) -> (r: mongodb::options::WriteConcern)
    ensures
        r == *w,
{
    w.clone()
}

/// Relies on the derived Clone of mongodb's ReadConcern: a field-by-field copy.
#[verifier::external_body]
pub(crate) fn copy_read_concern(c: &mongodb::options::ReadConcern) -> (r: mongodb::options::ReadConcern)
    ensures
        r == *c,
{
    c.clone()
}

} // verus!
