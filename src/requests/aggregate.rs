use vstd::prelude::*;

use crate::documents::{list_translation, parse_docs};
use crate::error::TranslationError;
use crate::options::{copy_read_concern_opt, copy_write_concern_opt, AggregateOptions};
use crate::traits::{DocumentPayload, MongoRequest};

verus! {

/// The body of an `aggregate` request: a pipeline of stages, each a document.
pub struct AggregateRequest {
    pub data_source: Option<String>,
    pub database: Option<String>,
    pub collection: String,
    pub pipeline: Vec<serde_json::Value>,
    pub bypass_document_validation: Option<bool>,
    pub write_concern: Option<mongodb::options::WriteConcern>,
    pub batch_size: Option<u32>,
    pub read_concern: Option<mongodb::options::ReadConcern>,
}

impl MongoRequest for AggregateRequest {
    type OptionsType = AggregateOptions;

    open spec fn target_collection(&self) -> Seq<char> {
        self.collection@
    }

    open spec fn translates_options(&self, o: AggregateOptions) -> bool {
        &&& o.bypass_document_validation == self.bypass_document_validation
        &&& o.write_concern == self.write_concern
        &&& o.batch_size == self.batch_size
        &&& o.read_concern == self.read_concern
    }

    fn coll(&self) -> (r: &str) {
        self.collection.as_str()
    }

    fn opts(&self) -> (r: AggregateOptions) {
        AggregateOptions {
            bypass_document_validation: self.bypass_document_validation,
            write_concern: copy_write_concern_opt(&self.write_concern),
            batch_size: self.batch_size,
            read_concern: copy_read_concern_opt(&self.read_concern),
        }
    }
}

impl DocumentPayload for AggregateRequest {
    type PayloadType = Vec<bson::Document>;

    open spec fn translates_payload(&self, r: Result<Vec<bson::Document>, TranslationError>) -> bool {
        list_translation(self.pipeline@, r)
    }

    fn payload(&self) -> (r: Result<Vec<bson::Document>, TranslationError>) {
        parse_docs(&self.pipeline)
    }
}

} // verus!
