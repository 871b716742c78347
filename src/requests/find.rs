use vstd::prelude::*;

use crate::documents::{lenient_document, lenient_to_document, optional_filter, translate_optional_filter};
use crate::error::TranslationError;
use crate::options::FindOptions;
use crate::traits::{FilterQuery, MongoRequest};

verus! {

/// The body of a `find` request.
pub struct FindRequest {
    pub data_source: Option<String>,
    pub database: Option<String>,
    pub collection: String,
    pub filter: Option<serde_json::Value>,
    pub projection: Option<serde_json::Value>,
    pub sort: Option<serde_json::Value>,
    pub limit: Option<i64>,
    pub skip: Option<u64>,
}

impl MongoRequest for FindRequest {
    type OptionsType = FindOptions;

    open spec fn target_collection(&self) -> Seq<char> {
        self.collection@
    }

    open spec fn translates_options(&self, o: FindOptions) -> bool {
        &&& o.limit == self.limit
        &&& o.skip == self.skip
        &&& o.sort == lenient_document(self.sort)
        &&& o.projection == lenient_document(self.projection)
    }

    fn coll(&self) -> (r: &str) {
        self.collection.as_str()
    }

    fn opts(&self) -> (r: FindOptions) {
        FindOptions {
            limit: self.limit,
            skip: self.skip,
            sort: lenient_to_document(&self.sort),
            projection: lenient_to_document(&self.projection),
        }
    }
}

impl FilterQuery for FindRequest {
    open spec fn filter_spec(&self) -> Option<Result<bson::Document, TranslationError>> {
        optional_filter(self.filter)
    }

    fn filter(&self) -> (r: Option<Result<bson::Document, TranslationError>>) {
        translate_optional_filter(&self.filter)
    }
}

} // verus!
