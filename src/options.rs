//! The option bags handed to the store, one per kind of operation. Each field
//! left as None means the store's default.
use vstd::prelude::*;

verus! {

pub struct FindOptions {
    pub limit: Option<i64>,
    pub skip: Option<u64>,
    pub sort: Option<bson::Document>,
    pub projection: Option<bson::Document>,
}

pub struct FindOneOptions {
    pub projection: Option<bson::Document>,
}

pub struct InsertOneOptions {
    pub bypass_document_validation: Option<bool>,
    pub write_concern: Option<mongodb::options::WriteConcern>,
}

pub struct InsertManyOptions {
    pub bypass_document_validation: Option<bool>,
    pub write_concern: Option<mongodb::options::WriteConcern>,
    pub ordered: Option<bool>,
}

pub struct UpdateOptions {
    pub bypass_document_validation: Option<bool>,
    pub upsert: Option<bool>,
    pub write_concern: Option<mongodb::options::WriteConcern>,
    pub array_filters: Option<Vec<bson::Document>>,
}

/// Options of a replacement. A request never sets a collation, so none is carried.
pub struct ReplaceOptions {
    pub bypass_document_validation: Option<bool>,
    pub upsert: Option<bool>,
    pub write_concern: Option<mongodb::options::WriteConcern>,
}

pub struct DeleteOptions {
    pub write_concern: Option<mongodb::options::WriteConcern>,
}

pub struct AggregateOptions {
    pub bypass_document_validation: Option<bool>,
    pub write_concern: Option<mongodb::options::WriteConcern>,
    pub batch_size: Option<u32>,
    pub read_concern: Option<mongodb::options::ReadConcern>,
}

/// Update options seen as the source of replace options.
pub struct UpdateOptionsWrapper(pub UpdateOptions);

impl From<UpdateOptionsWrapper> for ReplaceOptions {
    /// Keeps the fields that a replacement shares with an update.
    fn from(wrapper: UpdateOptionsWrapper) -> (r: ReplaceOptions) {
        ReplaceOptions {
            bypass_document_validation: wrapper.0.bypass_document_validation,
            upsert: wrapper.0.upsert,
            write_concern: wrapper.0.write_concern,
        }
    }
}

impl vstd::std_specs::convert::FromSpecImpl<UpdateOptionsWrapper> for ReplaceOptions {
    open spec fn obeys_from_spec() -> bool {
        true
    }

    open spec fn from_spec(wrapper: UpdateOptionsWrapper) -> ReplaceOptions {
        ReplaceOptions {
            bypass_document_validation: wrapper.0.bypass_document_validation,
            upsert: wrapper.0.upsert,
            write_concern: wrapper.0.write_concern,
        }
    }
}

/// A copy of an optional write concern.
pub(crate) fn copy_write_concern_opt(w: &Option<mongodb::options::WriteConcern>) -> (r: Option<mongodb::options::WriteConcern>)
    ensures
        r == *w,
{
    match w {
        Some(c) => Some(crate::bridge::copy_write_concern(c)),
        None => None,
    }
}

/// A copy of an optional read concern.
pub(crate) fn copy_read_concern_opt(c: &Option<mongodb::options::ReadConcern>) -> (r: Option<mongodb::options::ReadConcern>)
    ensures
        r == *c,
{
    match c {
        Some(x) => Some(crate::bridge::copy_read_concern(x)),
        None => None,
    }
}

} // verus!
