use vstd::prelude::*;

use crate::documents::{documents_of, optional_filter, parse_docs, parse_filter, translate_optional_filter, translated};
use crate::error::TranslationError;
use crate::options::{copy_write_concern_opt, UpdateOptions};
use crate::traits::{DocumentPayload, FilterQuery, MongoRequest};

verus! {

/// The body of an `updateOne`, `updateMany` or `replaceOne` request. For the
/// updates `document` is the update specification, for a replacement it is the
/// new document.
pub struct UpdateRequest {
    pub data_source: Option<String>,
    pub database: Option<String>,
    pub collection: String,
    pub filter: Option<serde_json::Value>,
    pub document: serde_json::Value,
    pub bypass_document_validation: Option<bool>,
    pub write_concern: Option<mongodb::options::WriteConcern>,
    pub upsert: Option<bool>,
    pub array_filters: Option<Vec<serde_json::Value>>,
}

/// The array filters an update applies. A list with an entry that is not a
/// document is dropped whole, leaving no array filters, and the request goes
/// on: unlike a bad filter or payload, it is not an error.
pub open spec fn array_filters_applied(afs: Option<Vec<serde_json::Value>>, o: Option<Vec<bson::Document>>) -> bool {
    match afs {
        None => o is None,
        Some(list) => match documents_of(list@) {
            Some(ds) => o is Some && o->0@ == ds,
            None => o is None,
        },
    }
}

impl MongoRequest for UpdateRequest {
    type OptionsType = UpdateOptions;

    open spec fn target_collection(&self) -> Seq<char> {
        self.collection@
    }

    open spec fn translates_options(&self, o: UpdateOptions) -> bool {
        &&& o.bypass_document_validation == self.bypass_document_validation
        &&& o.upsert == self.upsert
        &&& o.write_concern == self.write_concern
        &&& array_filters_applied(self.array_filters, o.array_filters)
    }

    fn coll(&self) -> (r: &str) {
        self.collection.as_str()
    }

    fn opts(&self) -> (r: UpdateOptions) {
        let array_filters = match &self.array_filters {
            Some(list) => match parse_docs(list) {
                Ok(docs) => Some(docs),
                Err(_) => None,
            },
            None => None,
        };
        UpdateOptions {
            bypass_document_validation: self.bypass_document_validation,
            upsert: self.upsert,
            write_concern: copy_write_concern_opt(&self.write_concern),
            array_filters,
        }
    }
}

impl DocumentPayload for UpdateRequest {
    type PayloadType = bson::Document;

    open spec fn translates_payload(&self, r: Result<bson::Document, TranslationError>) -> bool {
        r == translated(self.document)
    }

    fn payload(&self) -> (r: Result<bson::Document, TranslationError>) {
        parse_filter(&self.document)
    }
}

impl FilterQuery for UpdateRequest {
    open spec fn filter_spec(&self) -> Option<Result<bson::Document, TranslationError>> {
        optional_filter(self.filter)
    }

    fn filter(&self) -> (r: Option<Result<bson::Document, TranslationError>>) {
        translate_optional_filter(&self.filter)
    }
}

} // verus!
