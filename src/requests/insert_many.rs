use vstd::prelude::*;

use crate::documents::{list_translation, parse_docs};
use crate::error::TranslationError;
use crate::options::{copy_write_concern_opt, InsertManyOptions};
use crate::traits::{DocumentPayload, MongoRequest};

verus! {

/// The body of an `insertMany` request.
pub struct InsertManyRequest {
    pub data_source: Option<String>,
    pub database: Option<String>,
    pub collection: String,
    pub documents: Vec<serde_json::Value>,
    pub bypass_document_validation: Option<bool>,
    pub write_concern: Option<mongodb::options::WriteConcern>,
    pub ordered: Option<bool>,
}

impl MongoRequest for InsertManyRequest {
    type OptionsType = InsertManyOptions;

    open spec fn target_collection(&self) -> Seq<char> {
        self.collection@
    }

    open spec fn translates_options(&self, o: InsertManyOptions) -> bool {
        &&& o.bypass_document_validation == self.bypass_document_validation
        &&& o.write_concern == self.write_concern
        &&& o.ordered == self.ordered
    }

    fn coll(&self) -> (r: &str) {
        self.collection.as_str()
    }

    fn opts(&self) -> (r: InsertManyOptions) {
        InsertManyOptions {
            bypass_document_validation: self.bypass_document_validation,
            write_concern: copy_write_concern_opt(&self.write_concern),
            ordered: self.ordered,
        }
    }
}

impl DocumentPayload for InsertManyRequest {
    type PayloadType = Vec<bson::Document>;

    open spec fn translates_payload(&self, r: Result<Vec<bson::Document>, TranslationError>) -> bool {
        list_translation(self.documents@, r)
    }

    fn payload(&self) -> (r: Result<Vec<bson::Document>, TranslationError>) {
        parse_docs(&self.documents)
    }
}

} // verus!
