use vstd::prelude::*;

use crate::bridge::{document_of, documents_to_json, json_of_documents, to_document};
use crate::error::{ApiError, TranslationError};

verus! {

/// A JSON value translated into a document, or the translation failure.
pub open spec fn translated(v: serde_json::Value) -> Result<bson::Document, TranslationError> {
    match document_of(v) {
        Some(d) => Ok(d),
        None => Err(TranslationError),
    }
}

/// Every value of the list is a document.
pub open spec fn all_translate(vs: Seq<serde_json::Value>) -> bool {
    forall|i: int| 0 <= i < vs.len() ==> (#[trigger] document_of(vs[i])) is Some
}

/// The list translated element by element, in order; None as soon as one
/// element is not a document. An empty list translates to an empty list.
pub open spec fn documents_of(vs: Seq<serde_json::Value>) -> Option<Seq<bson::Document>> {
    if all_translate(vs) {
        Some(vs.map_values(|v: serde_json::Value| document_of(v)->0))
    } else {
        None
    }
}

/// `r` is the element-by-element translation of `vs`.
pub open spec fn list_translation(vs: Seq<serde_json::Value>, r: Result<Vec<bson::Document>, TranslationError>) -> bool {
    match r {
        Ok(ds) => documents_of(vs) == Some(ds@),
        Err(e) => documents_of(vs) is None && e == TranslationError,
    }
}

/// Translates one JSON value into a document.
pub fn parse_filter(json: &serde_json::Value) -> (r: Result<bson::Document, TranslationError>)
    ensures
        r == translated(*json),
{
    match to_document(json) {
        Ok(d) => Ok(d),
        Err(_) => Err(TranslationError),
    }
}

/// Translates each element of a list into a document, keeping the order. The
/// whole translation fails if any one element fails.
pub fn parse_docs(json_list: &Vec<serde_json::Value>) -> (r: Result<Vec<bson::Document>, TranslationError>)
    ensures
        list_translation(json_list@, r),
{
    let mut out: Vec<bson::Document> = Vec::new();
    let mut i: usize = 0;
    while i < json_list.len()
        invariant
            i <= json_list@.len(),
            out@.len() == i,
            forall|j: int| 0 <= j < i ==> document_of(json_list@[j]) == Some(#[trigger] out@[j]),
        decreases json_list@.len() - i,
    {
        match to_document(&json_list[i]) {
            Ok(d) => {
                out.push(d);
            },
            Err(_) => {
                proof {
                    assert(document_of(json_list@[i as int]) is None);
                    assert(!all_translate(json_list@));
                }
                return Err(TranslationError);
            },
        }
        i = i + 1;
    }
    proof {
        assert(all_translate(json_list@)) by {
            assert forall|j: int| 0 <= j < json_list@.len() implies (#[trigger] document_of(
                json_list@[j],
            )) is Some by {
                assert(document_of(json_list@[j]) == Some(out@[j]));
            }
        }
        assert(json_list@.map_values(|v: serde_json::Value| document_of(v)->0) =~= out@);
    }
    Ok(out)
}

/// The outcome of draining a result stream: every item in order, or a server
/// error if any item failed.
pub open spec fn drained<E>(items: Seq<Result<bson::Document, E>>) -> Result<Seq<bson::Document>, ApiError> {
    if forall|i: int| 0 <= i < items.len() ==> (#[trigger] items[i]) is Ok {
        Ok(items.map_values(|it: Result<bson::Document, E>| it->Ok_0))
    } else {
        Err(ApiError::Internal)
    }
}

/// Collects the items a result stream yielded into one list. A failed item
/// discards everything collected so far: the caller gets all of it or an error.
pub fn collect_documents<E>(items: Vec<Result<bson::Document, E>>) -> (r: Result<Vec<bson::Document>, ApiError>)
    ensures
        match r {
            Ok(ds) => drained(items@) == Ok::<Seq<bson::Document>, ApiError>(ds@),
            Err(e) => drained(items@) == Err::<Seq<bson::Document>, ApiError>(e),
        },
{
    let ghost all = items@;
    let mut result: Vec<bson::Document> = Vec::new();
    let mut rest = items;
    while rest.len() > 0
        invariant
            all == items@,
            result@.len() + rest@.len() == all.len(),
            rest@ =~= all.subrange(result@.len() as int, all.len() as int),
            forall|j: int| 0 <= j < result@.len() ==> (#[trigger] all[j]) == Ok::<bson::Document, E>(result@[j]),
        decreases rest@.len(),
    {
        let k = result.len();
        let item = rest.remove(0);
        proof {
            assert(item == all[k as int]);
        }
        match item {
            Ok(d) => {
                result.push(d);
                proof {
                    assert(rest@ =~= all.subrange(result@.len() as int, all.len() as int));
                }
            },
            Err(_) => {
                proof {
                    assert(!(all[k as int] is Ok));
                    assert(!(forall|i: int| 0 <= i < all.len() ==> (#[trigger] all[i]) is Ok));
                    assert(drained(all) == Err::<Seq<bson::Document>, ApiError>(ApiError::Internal));
                }
                return Err(ApiError::Internal);
            },
        }
    }
    proof {
        assert forall|i: int| 0 <= i < all.len() implies (#[trigger] all[i]) is Ok by {
            assert(all[i] == Ok::<bson::Document, E>(result@[i]));
        }
        assert(all.map_values(|it: Result<bson::Document, E>| it->Ok_0) =~= result@);
    }
    Ok(result)
}

/// The response body of a streaming operation: the drained documents as one
/// JSON array, or a server error if draining or encoding failed.
pub open spec fn stream_response<E>(items: Seq<Result<bson::Document, E>>) -> Result<serde_json::Value, ApiError> {
    match drained(items) {
        Err(e) => Err(e),
        Ok(ds) => match json_of_documents(ds) {
            Some(v) => Ok(v),
            None => Err(ApiError::Internal),
        },
    }
}

/// Drains what a result stream yielded into one JSON array of documents.
pub fn docs_as_json<E>(items: Vec<Result<bson::Document, E>>) -> (r: Result<serde_json::Value, ApiError>)
    ensures
        r == stream_response(items@),
{
    let docs = collect_documents(items)?;
    match documents_to_json(&docs) {
        Ok(v) => Ok(v),
        Err(_) => Err(ApiError::Internal),
    }
}

/// An optional JSON value as a document: None when it is absent or is not a
/// document, so that an unusable option is left at the store's default.
pub open spec fn lenient_document(v: Option<serde_json::Value>) -> Option<bson::Document> {
    match v {
        Some(j) => document_of(j),
        None => None,
    }
}

/// Translates an optional JSON value, dropping it when it is not a document.
pub fn lenient_to_document(v: &Option<serde_json::Value>) -> (r: Option<bson::Document>)
    ensures
        r == lenient_document(*v),
{
    match v {
        Some(j) => match parse_filter(j) {
            Ok(d) => Some(d),
            Err(_) => None,
        },
        None => None,
    }
}

/// An optional filter: absent stays absent, present is translated.
pub open spec fn optional_filter(v: Option<serde_json::Value>) -> Option<Result<bson::Document, TranslationError>> {
    match v {
        Some(j) => Some(translated(j)),
        None => None,
    }
}

/// Translates an optional filter.
pub fn translate_optional_filter(v: &Option<serde_json::Value>) -> (r: Option<Result<bson::Document, TranslationError>>)
    ensures
        r == optional_filter(*v),
{
    match v {
        Some(j) => Some(parse_filter(j)),
        None => None,
    }
}

} // verus!
