use vstd::prelude::*;

use crate::documents::{lenient_document, lenient_to_document, optional_filter, translate_optional_filter};
use crate::error::TranslationError;
use crate::options::FindOneOptions;
use crate::traits::{FilterQuery, MongoRequest};

verus! {

/// The body of a `findOne` request.
pub struct FindOneRequest {
    pub data_source: Option<String>,
    pub database: Option<String>,
    pub collection: String,
    pub filter: Option<serde_json::Value>,
    pub projection: Option<serde_json::Value>,
}

impl MongoRequest for FindOneRequest {
    type OptionsType = FindOneOptions;

    open spec fn target_collection(&self) -> Seq<char> {
        self.collection@
    }

    open spec fn translates_options(&self, o: FindOneOptions) -> bool {
        o.projection == lenient_document(self.projection)
    }

    fn coll(&self) -> (r: &str) {
        self.collection.as_str()
    }

    fn opts(&self) -> (r: FindOneOptions) {
        FindOneOptions { projection: lenient_to_document(&self.projection) }
    }
}

impl FilterQuery for FindOneRequest {
    open spec fn filter_spec(&self) -> Option<Result<bson::Document, TranslationError>> {
        optional_filter(self.filter)
    }

    fn filter(&self) -> (r: Option<Result<bson::Document, TranslationError>>) {
        translate_optional_filter(&self.filter)
    }
}

} // verus!
