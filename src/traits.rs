//! The uniform contract of every operation request: a target collection and an
//! option bag always; a filter and a payload where the operation has them.
use vstd::prelude::*;

use crate::error::TranslationError;

verus! {

pub trait MongoRequest {
    type OptionsType;

    /// The collection the request names.
    spec fn target_collection(&self) -> Seq<char>;

    /// `o` is the option bag that this request's tuning fields translate to.
    spec fn translates_options(&self, o: Self::OptionsType) -> bool;

    fn coll(&self) -> (r: &str)
        ensures
            r@ == self.target_collection(),
    ;

    /// Never fails: a tuning field that cannot be used is left at the store's default.
    fn opts(&self) -> (r: Self::OptionsType)
        ensures
            self.translates_options(r),
    ;
}

pub trait FilterQuery {
    /// None when the request carries no filter, else the filter translated.
    spec fn filter_spec(&self) -> Option<Result<bson::Document, TranslationError>>;

    fn filter(&self) -> (r: Option<Result<bson::Document, TranslationError>>)
        ensures
            r == self.filter_spec(),
    ;
}

pub trait DocumentPayload {
    type PayloadType;

    /// `r` is what this request's payload translates to.
    spec fn translates_payload(&self, r: Result<Self::PayloadType, TranslationError>) -> bool;

    fn payload(&self) -> (r: Result<Self::PayloadType, TranslationError>)
        ensures
            self.translates_payload(r),
    ;
}

} // verus!
