//! What each endpoint decides before and after the store is called. A plan
//! holds everything the store call needs; it exists only when every filter
//! and payload translated, so a rejected request never reaches the store.
use vstd::prelude::*;

use crate::bridge::document_of;
use crate::documents::all_translate;
use crate::error::{ApiError, TranslationError};
use crate::options::{
    AggregateOptions, DeleteOptions, FindOneOptions, FindOptions, InsertManyOptions,
    InsertOneOptions, ReplaceOptions, UpdateOptions, UpdateOptionsWrapper,
};
use crate::requests::aggregate::AggregateRequest;
use crate::requests::delete::DeleteRequest;
use crate::requests::find::FindRequest;
use crate::requests::find_one::FindOneRequest;
use crate::requests::insert_many::InsertManyRequest;
use crate::requests::insert_one::InsertOneRequest;
use crate::requests::update::UpdateRequest;
use crate::traits::{DocumentPayload, FilterQuery, MongoRequest};

verus! {

/// The filter a store call gets: an absent filter matches every document, a
/// filter that is not a document rejects the request.
pub open spec fn filter_plan(f: Option<Result<bson::Document, TranslationError>>) -> Result<Option<bson::Document>, ApiError> {
    match f {
        None => Ok(None),
        Some(Ok(d)) => Ok(Some(d)),
        Some(Err(_)) => Err(ApiError::BadRequest),
    }
}

fn plan_filter(f: Option<Result<bson::Document, TranslationError>>) -> (r: Result<Option<bson::Document>, ApiError>)
    ensures
        r == filter_plan(f),
{
    match f {
        None => Ok(None),
        Some(Ok(d)) => Ok(Some(d)),
        Some(Err(_)) => Err(ApiError::BadRequest),
    }
}

pub struct FindPlan {
    /// None: every document matches.
    pub filter: Option<bson::Document>,
    pub options: FindOptions,
}

pub open spec fn find_planned(req: FindRequest, r: Result<FindPlan, ApiError>) -> bool {
    match r {
        Ok(p) => filter_plan(req.filter_spec()) == Ok::<Option<bson::Document>, ApiError>(p.filter)
            && req.translates_options(p.options),
        Err(e) => filter_plan(req.filter_spec()) == Err::<Option<bson::Document>, ApiError>(e),
    }
}

/// Translates a `find` request.
pub fn plan_find(req: &FindRequest) -> (r: Result<FindPlan, ApiError>)
    ensures
        find_planned(*req, r),
{
    let filter = plan_filter(req.filter())?;
    Ok(FindPlan { filter, options: req.opts() })
}

pub struct FindOnePlan {
    /// None: every document matches.
    pub filter: Option<bson::Document>,
    pub options: FindOneOptions,
}

pub open spec fn find_one_planned(req: FindOneRequest, r: Result<FindOnePlan, ApiError>) -> bool {
    match r {
        Ok(p) => filter_plan(req.filter_spec()) == Ok::<Option<bson::Document>, ApiError>(p.filter)
            && req.translates_options(p.options),
        Err(e) => filter_plan(req.filter_spec()) == Err::<Option<bson::Document>, ApiError>(e),
    }
}

/// Translates a `findOne` request.
pub fn plan_find_one(req: &FindOneRequest) -> (r: Result<FindOnePlan, ApiError>)
    ensures
        find_one_planned(*req, r),
{
    let filter = plan_filter(req.filter())?;
    Ok(FindOnePlan { filter, options: req.opts() })
}

pub struct InsertOnePlan {
    pub document: bson::Document,
    pub options: InsertOneOptions,
}

pub open spec fn insert_one_planned(req: InsertOneRequest, r: Result<InsertOnePlan, ApiError>) -> bool {
    match r {
        Ok(p) => req.translates_payload(Ok(p.document)) && req.translates_options(p.options),
        Err(e) => e == ApiError::BadRequest && req.translates_payload(Err(TranslationError)),
    }
}

/// Translates an `insertOne` request.
pub fn plan_insert_one(req: &InsertOneRequest) -> (r: Result<InsertOnePlan, ApiError>)
    ensures
        insert_one_planned(*req, r),
{
    match req.payload() {
        Ok(document) => Ok(InsertOnePlan { document, options: req.opts() }),
        Err(_) => Err(ApiError::BadRequest),
    }
}

pub struct InsertManyPlan {
    pub documents: Vec<bson::Document>,
    pub options: InsertManyOptions,
}

pub open spec fn insert_many_planned(req: InsertManyRequest, r: Result<InsertManyPlan, ApiError>) -> bool {
    match r {
        Ok(p) => req.translates_payload(Ok(p.documents)) && req.translates_options(p.options),
        Err(e) => e == ApiError::BadRequest && req.translates_payload(Err(TranslationError)),
    }
}

/// Translates an `insertMany` request.
pub fn plan_insert_many(req: &InsertManyRequest) -> (r: Result<InsertManyPlan, ApiError>)
    ensures
        insert_many_planned(*req, r),
{
    match req.payload() {
        Ok(documents) => Ok(InsertManyPlan { documents, options: req.opts() }),
        Err(_) => Err(ApiError::BadRequest),
    }
}

pub struct UpdatePlan {
    /// None: every document matches.
    pub filter: Option<bson::Document>,
    pub update: bson::Document,
    pub options: UpdateOptions,
}

pub open spec fn update_planned(req: UpdateRequest, r: Result<UpdatePlan, ApiError>) -> bool {
    match r {
        Ok(p) => filter_plan(req.filter_spec()) == Ok::<Option<bson::Document>, ApiError>(p.filter)
            && req.translates_payload(Ok(p.update)) && req.translates_options(p.options),
        Err(e) => e == ApiError::BadRequest && (filter_plan(req.filter_spec()) is Err
            || req.translates_payload(Err(TranslationError))),
    }
}

/// Translates an `updateOne` or `updateMany` request.
pub fn plan_update(req: &UpdateRequest) -> (r: Result<UpdatePlan, ApiError>)
    ensures
        update_planned(*req, r),
{
    let filter = plan_filter(req.filter())?;
    match req.payload() {
        Ok(update) => Ok(UpdatePlan { filter, update, options: req.opts() }),
        Err(_) => Err(ApiError::BadRequest),
    }
}

pub struct ReplacePlan {
    /// None: every document matches.
    pub filter: Option<bson::Document>,
    pub replacement: bson::Document,
    pub options: ReplaceOptions,
}

pub open spec fn replace_planned(req: UpdateRequest, r: Result<ReplacePlan, ApiError>) -> bool {
    match r {
        Ok(p) => filter_plan(req.filter_spec()) == Ok::<Option<bson::Document>, ApiError>(p.filter)
            && req.translates_payload(Ok(p.replacement))
            && p.options.bypass_document_validation == req.bypass_document_validation
            && p.options.upsert == req.upsert
            && p.options.write_concern == req.write_concern,
        Err(e) => e == ApiError::BadRequest && (filter_plan(req.filter_spec()) is Err
            || req.translates_payload(Err(TranslationError))),
    }
}

/// Translates a `replaceOne` request; its options are the update options
/// narrowed to what a replacement shares with an update.
pub fn plan_replace(req: &UpdateRequest) -> (r: Result<ReplacePlan, ApiError>)
    ensures
        replace_planned(*req, r),
{
    let filter = plan_filter(req.filter())?;
    match req.payload() {
        Ok(replacement) => {
            let options = ReplaceOptions::from(UpdateOptionsWrapper(req.opts()));
            Ok(ReplacePlan { filter, replacement, options })
        },
        Err(_) => Err(ApiError::BadRequest),
    }
}

pub struct DeletePlan {
    /// None: every document matches.
    pub filter: Option<bson::Document>,
    pub options: DeleteOptions,
}

pub open spec fn delete_planned(req: DeleteRequest, r: Result<DeletePlan, ApiError>) -> bool {
    match r {
        Ok(p) => filter_plan(req.filter_spec()) == Ok::<Option<bson::Document>, ApiError>(p.filter)
            && req.translates_options(p.options),
        Err(e) => filter_plan(req.filter_spec()) == Err::<Option<bson::Document>, ApiError>(e),
    }
}

/// Translates a `deleteOne` or `deleteMany` request.
pub fn plan_delete(req: &DeleteRequest) -> (r: Result<DeletePlan, ApiError>)
    ensures
        delete_planned(*req, r),
{
    let filter = plan_filter(req.filter())?;
    Ok(DeletePlan { filter, options: req.opts() })
}

pub struct AggregatePlan {
    pub pipeline: Vec<bson::Document>,
    pub options: AggregateOptions,
}

pub open spec fn aggregate_planned(req: AggregateRequest, r: Result<AggregatePlan, ApiError>) -> bool {
    match r {
        Ok(p) => req.translates_payload(Ok(p.pipeline)) && req.translates_options(p.options),
        Err(e) => e == ApiError::BadRequest && req.translates_payload(Err(TranslationError)),
    }
}

/// Translates an `aggregate` request.
pub fn plan_aggregate(req: &AggregateRequest) -> (r: Result<AggregatePlan, ApiError>)
    ensures
        aggregate_planned(*req, r),
{
    match req.payload() {
        Ok(pipeline) => Ok(AggregatePlan { pipeline, options: req.opts() }),
        Err(_) => Err(ApiError::BadRequest),
    }
}

/// A store call's outcome as the response sees it: the value itself, or a
/// server error whatever the store reported.
pub fn store_outcome<T, E>(r: Result<T, E>) -> (o: Result<T, ApiError>)
    ensures
        match r {
            Ok(v) => o == Ok::<T, ApiError>(v),
            Err(_) => o == Err::<T, ApiError>(ApiError::Internal),
        },
{
    match r {
        Ok(v) => Ok(v),
        Err(_) => Err(ApiError::Internal),
    }
}

/// What a `findOne` answers.
pub enum FoundOne {
    /// The matching document.
    Match(bson::Document),
    /// Nothing matched: the answer is an empty document, with success.
    NoMatch,
}

/// Turns the store's answer to a `findOne` into the response: a miss is a
/// success with an empty document, never an absent one.
pub fn find_one_outcome<E>(r: Result<Option<bson::Document>, E>) -> (o: Result<FoundOne, ApiError>)
    ensures
        match r {
            Ok(Some(d)) => o == Ok::<FoundOne, ApiError>(FoundOne::Match(d)),
            Ok(None) => o == Ok::<FoundOne, ApiError>(FoundOne::NoMatch),
            Err(_) => o == Err::<FoundOne, ApiError>(ApiError::Internal),
        },
{
    match r {
        Ok(Some(d)) => Ok(FoundOne::Match(d)),
        Ok(None) => Ok(FoundOne::NoMatch),
        Err(_) => Err(ApiError::Internal),
    }
}

/// An `insertMany` with no documents always translates, to no documents.
pub proof fn lemma_empty_insert_many_translates(req: InsertManyRequest, r: Result<InsertManyPlan, ApiError>)
    requires
        req.documents@.len() == 0,
        insert_many_planned(req, r),
    ensures
        r is Ok,
        r->Ok_0.documents@.len() == 0,
{
    assert(all_translate(req.documents@));
}

/// A `find` whose filter is present but is not a document is a client error,
/// so the store is never queried.
pub proof fn lemma_find_rejects_untranslatable_filter(req: FindRequest, r: Result<FindPlan, ApiError>)
    requires
        req.filter is Some,
        document_of(req.filter->0) is None,
        find_planned(req, r),
    ensures
        r == Err::<FindPlan, ApiError>(ApiError::BadRequest),
{
}

/// Updates, replacements and deletions without a filter go ahead and match
/// every document; with a filter that is not a document they are client errors.
pub proof fn lemma_absent_filter_matches_all(
    upd: UpdateRequest,
    u: Result<UpdatePlan, ApiError>,
    rep: Result<ReplacePlan, ApiError>,
    del: DeleteRequest,
    d: Result<DeletePlan, ApiError>,
)
    requires
        update_planned(upd, u),
        replace_planned(upd, rep),
        delete_planned(del, d),
    ensures
        upd.filter is None && document_of(upd.document) is Some ==> u is Ok && u->Ok_0.filter is None
            && rep is Ok && rep->Ok_0.filter is None,
        upd.filter is Some && document_of(upd.filter->0) is None ==> u == Err::<UpdatePlan, ApiError>(
            ApiError::BadRequest,
        ) && rep == Err::<ReplacePlan, ApiError>(ApiError::BadRequest),
        del.filter is None ==> d is Ok && d->Ok_0.filter is None,
        del.filter is Some && document_of(del.filter->0) is None ==> d == Err::<DeletePlan, ApiError>(
            ApiError::BadRequest,
        ),
{
}

/// An aggregation runs only if every stage translated, each on its own and in
/// order; one stage that is not a document fails the whole request.
pub proof fn lemma_aggregate_stages_all_or_nothing(req: AggregateRequest, r: Result<AggregatePlan, ApiError>)
    requires
        aggregate_planned(req, r),
    ensures
        (exists|i: int| 0 <= i < req.pipeline@.len() && (#[trigger] document_of(req.pipeline@[i])) is None)
            ==> r == Err::<AggregatePlan, ApiError>(ApiError::BadRequest),
        r is Ok ==> r->Ok_0.pipeline@.len() == req.pipeline@.len() && forall|i: int|
            0 <= i < req.pipeline@.len() ==> document_of(req.pipeline@[i]) == Some(
                #[trigger] r->Ok_0.pipeline@[i],
            ),
{
}

/// Array filters with an entry that is not a document are dropped rather than
/// failing the update: the update still goes ahead, with no array filters.
pub proof fn lemma_bad_array_filters_dropped(req: UpdateRequest, r: Result<UpdatePlan, ApiError>, i: int)
    requires
        req.array_filters is Some,
        0 <= i < req.array_filters->0@.len(),
        document_of(req.array_filters->0@[i]) is None,
        req.filter is None || document_of(req.filter->0) is Some,
        document_of(req.document) is Some,
        update_planned(req, r),
    ensures
        r is Ok,
        r->Ok_0.options.array_filters is None,
{
}

} // verus!
