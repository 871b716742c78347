use vstd::prelude::*;

use crate::documents::{parse_filter, translated};
use crate::error::TranslationError;
use crate::options::{copy_write_concern_opt, InsertOneOptions};
use crate::traits::{DocumentPayload, MongoRequest};

verus! {

/// The body of an `insertOne` request.
pub struct InsertOneRequest {
    pub data_source: Option<String>,
    pub database: Option<String>,
    pub collection: String,
    pub document: serde_json::Value,
    pub bypass_document_validation: Option<bool>,
    pub write_concern: Option<mongodb::options::WriteConcern>,
}

impl MongoRequest for InsertOneRequest {
    type OptionsType = InsertOneOptions;

    open spec fn target_collection(&self) -> Seq<char> {
        self.collection@
    }

    open spec fn translates_options(&self, o: InsertOneOptions) -> bool {
        &&& o.bypass_document_validation == self.bypass_document_validation
        &&& o.write_concern == self.write_concern
    }

    fn coll(&self) -> (r: &str) {
        self.collection.as_str()
    }

    fn opts(&self) -> (r: InsertOneOptions) {
        InsertOneOptions {
            bypass_document_validation: self.bypass_document_validation,
            write_concern: copy_write_concern_opt(&self.write_concern),
        }
    }
}

impl DocumentPayload for InsertOneRequest {
    type PayloadType = bson::Document;

    open spec fn translates_payload(&self, r: Result<bson::Document, TranslationError>) -> bool {
        r == translated(self.document)
    }

    fn payload(&self) -> (r: Result<bson::Document, TranslationError>) {
        parse_filter(&self.document)
    }
}

} // verus!
