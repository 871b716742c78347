use vstd::prelude::*;

use crate::documents::{optional_filter, translate_optional_filter};
use crate::error::TranslationError;
use crate::options::{copy_write_concern_opt, DeleteOptions};
use crate::traits::{FilterQuery, MongoRequest};

verus! {

/// The body of a `deleteOne` or `deleteMany` request.
pub struct DeleteRequest {
    pub data_source: Option<String>,
    pub database: Option<String>,
    pub collection: String,
    pub filter: Option<serde_json::Value>,
    pub write_concern: Option<mongodb::options::WriteConcern>,
}

impl MongoRequest for DeleteRequest {
    type OptionsType = DeleteOptions;

    open spec fn target_collection(&self) -> Seq<char> {
        self.collection@
    }

    open spec fn translates_options(&self, o: DeleteOptions) -> bool {
        o.write_concern == self.write_concern
    }

    fn coll(&self) -> (r: &str) {
        self.collection.as_str()
    }

    fn opts(&self) -> (r: DeleteOptions) {
        DeleteOptions { write_concern: copy_write_concern_opt(&self.write_concern) }
    }
}

impl FilterQuery for DeleteRequest {
    open spec fn filter_spec(&self) -> Option<Result<bson::Document, TranslationError>> {
        optional_filter(self.filter)
    }

    fn filter(&self) -> (r: Option<Result<bson::Document, TranslationError>>) {
        translate_optional_filter(&self.filter)
    }
}

} // verus!
