use mongo_data_api::collection::{bson_mw, collection_mw};
use mongo_data_api::documents::{collect_documents, docs_as_json, parse_docs, parse_filter};
use mongo_data_api::error::{ApiError, TranslationError};
use mongo_data_api::handlers::{
    find_one_outcome, plan_aggregate, plan_delete, plan_find, plan_find_one, plan_insert_many,
    plan_insert_one, plan_replace, plan_update, store_outcome, FoundOne,
};
use mongo_data_api::headers::{ejson_mw, Negotiation};
use mongo_data_api::options::{ReplaceOptions, UpdateOptions, UpdateOptionsWrapper};
use mongo_data_api::requests::aggregate::AggregateRequest;
use mongo_data_api::requests::delete::DeleteRequest;
use mongo_data_api::requests::find::FindRequest;
use mongo_data_api::requests::find_one::FindOneRequest;
use mongo_data_api::requests::insert_many::InsertManyRequest;
use mongo_data_api::requests::insert_one::InsertOneRequest;
use mongo_data_api::requests::update::UpdateRequest;
use mongo_data_api::traits::{DocumentPayload, FilterQuery, MongoRequest};

fn json(text: &str) -> serde_json::Value {
    serde_json::from_str(text).unwrap()
}

fn find_request(filter: Option<&str>) -> FindRequest {
    FindRequest {
        data_source: Some("Cluster0".to_string()),
        database: Some("db".to_string()),
        collection: "people".to_string(),
        filter: filter.map(json),
        projection: None,
        sort: None,
        limit: None,
        skip: None,
    }
}

fn update_request(filter: Option<&str>, document: &str, array_filters: Option<Vec<&str>>) -> UpdateRequest {
    UpdateRequest {
        data_source: None,
        database: None,
        collection: "people".to_string(),
        filter: filter.map(json),
        document: json(document),
        bypass_document_validation: Some(true),
        write_concern: None,
        upsert: Some(false),
        array_filters: array_filters.map(|v| v.into_iter().map(json).collect()),
    }
}

fn aggregate_request(stages: Vec<&str>) -> AggregateRequest {
    AggregateRequest {
        data_source: None,
        database: None,
        collection: "orders".to_string(),
        pipeline: stages.into_iter().map(json).collect(),
        bypass_document_validation: None,
        write_concern: None,
        batch_size: Some(10),
        read_concern: None,
    }
}

#[test]
fn json_content_type_passes_through() {
    assert_eq!(ejson_mw(Some(b"application/json")), Ok(Negotiation::PassThrough));
}

#[test]
fn ejson_content_type_is_normalized() {
    assert_eq!(ejson_mw(Some(b"application/ejson")), Ok(Negotiation::NormalizeToJson));
}

#[test]
fn missing_content_type_is_rejected() {
    assert_eq!(ejson_mw(None), Err(ApiError::BadRequest));
}

#[test]
fn other_content_types_are_rejected() {
    assert_eq!(ejson_mw(Some(b"text/plain")), Err(ApiError::BadRequest));
    assert_eq!(ejson_mw(Some(b"application/json; charset=utf-8")), Err(ApiError::BadRequest));
    assert_eq!(ejson_mw(Some(b"Application/JSON")), Err(ApiError::BadRequest));
    assert_eq!(ejson_mw(Some(b"")), Err(ApiError::BadRequest));
}

#[test]
fn unreadable_content_type_is_rejected() {
    assert_eq!(ejson_mw(Some(&[0x61, 0xff, 0x00])), Err(ApiError::BadRequest));
}

#[test]
fn collection_guard_reads_the_name() {
    let body = br#"{"dataSource":"c","database":"d","collection":"people","filter":{"a":1}}"#;
    assert_eq!(collection_mw(body), Ok("people".to_string()));
}

#[test]
fn collection_guard_accepts_any_string() {
    assert_eq!(collection_mw(br#"{"collection":""}"#), Ok(String::new()));
    assert_eq!(collection_mw(br#"{"collection":"a b/c"}"#), Ok("a b/c".to_string()));
}

#[test]
fn collection_guard_rejects_missing_collection() {
    assert_eq!(collection_mw(br#"{"database":"d"}"#), Err(ApiError::BadRequest));
}

#[test]
fn collection_guard_rejects_non_string_collection() {
    assert_eq!(collection_mw(br#"{"collection":5}"#), Err(ApiError::BadRequest));
    assert_eq!(collection_mw(br#"{"collection":null}"#), Err(ApiError::BadRequest));
    assert_eq!(collection_mw(br#"{"collection":["a"]}"#), Err(ApiError::BadRequest));
    assert_eq!(collection_mw(br#"{"collection":{"name":"a"}}"#), Err(ApiError::BadRequest));
}

#[test]
fn collection_guard_rejects_malformed_json() {
    assert_eq!(collection_mw(b"{\"collection\":"), Err(ApiError::BadRequest));
    assert_eq!(collection_mw(b""), Err(ApiError::BadRequest));
    assert_eq!(collection_mw(br#"["collection"]"#), Err(ApiError::BadRequest));
}

#[test]
fn object_translates_to_document() {
    let d = parse_filter(&json(r#"{"name":"ann","age":31}"#)).unwrap();
    assert_eq!(d.len(), 2);
    assert_eq!(d.get_str("name").unwrap(), "ann");
    assert_eq!(d.get_i64("age").unwrap(), 31);
}

#[test]
fn scalars_do_not_translate() {
    assert_eq!(parse_filter(&json("5")).err(), Some(TranslationError));
    assert_eq!(parse_filter(&json("\"x\"")).err(), Some(TranslationError));
    assert_eq!(parse_filter(&json("[1,2]")).err(), Some(TranslationError));
    assert_eq!(parse_filter(&json("null")).err(), Some(TranslationError));
}

#[test]
fn empty_list_translates_to_empty_list() {
    assert_eq!(parse_docs(&vec![]).unwrap().len(), 0);
}

#[test]
fn list_translates_in_order() {
    let docs = parse_docs(&vec![json(r#"{"i":1}"#), json(r#"{"i":2}"#), json(r#"{"i":3}"#)]).unwrap();
    let seen: Vec<i64> = docs.iter().map(|d| d.get_i64("i").unwrap()).collect();
    assert_eq!(seen, vec![1, 2, 3]);
}

#[test]
fn list_with_one_scalar_fails_whole() {
    let r = parse_docs(&vec![json(r#"{"i":1}"#), json("7"), json(r#"{"i":3}"#)]);
    assert_eq!(r.err(), Some(TranslationError));
}

#[test]
fn drained_stream_keeps_order() {
    let items: Vec<Result<bson::Document, String>> =
        vec![Ok(parse_filter(&json(r#"{"k":1}"#)).unwrap()), Ok(parse_filter(&json(r#"{"k":2}"#)).unwrap())];
    let out = collect_documents(items).ok().unwrap();
    assert_eq!(out.len(), 2);
    assert_eq!(out[0].get_i64("k").unwrap(), 1);
    assert_eq!(out[1].get_i64("k").unwrap(), 2);
}

#[test]
fn failed_stream_item_discards_everything() {
    let items: Vec<Result<bson::Document, String>> =
        vec![Ok(parse_filter(&json(r#"{"k":1}"#)).unwrap()), Err("cursor died".to_string()), Ok(bson::Document::new())];
    assert_eq!(collect_documents(items).err(), Some(ApiError::Internal));
    let again: Vec<Result<bson::Document, String>> = vec![Err("first".to_string())];
    assert_eq!(docs_as_json(again), Err(ApiError::Internal));
}

#[test]
fn empty_stream_drains_to_empty_array() {
    let items: Vec<Result<bson::Document, String>> = vec![];
    assert_eq!(docs_as_json(items), Ok(json("[]")));
}

#[test]
fn drained_stream_becomes_json_array() {
    let items: Vec<Result<bson::Document, String>> =
        vec![Ok(parse_filter(&json(r#"{"k":1,"s":"a"}"#)).unwrap()), Ok(parse_filter(&json(r#"{"k":2}"#)).unwrap())];
    assert_eq!(docs_as_json(items), Ok(json(r#"[{"k":1,"s":"a"},{"k":2}]"#)));
}

#[test]
fn whole_body_decodes_as_document() {
    let d = bson_mw(br#"{"collection":"people","n":3}"#).unwrap();
    assert_eq!(d.get_str("collection").unwrap(), "people");
    assert_eq!(d.get("n"), Some(&bson::Bson::Int32(3)));
    assert_eq!(bson_mw(b"[1,2]").err(), Some(ApiError::BadRequest));
    assert_eq!(bson_mw(b"{").err(), Some(ApiError::BadRequest));
}

#[test]
fn find_request_exposes_collection_and_options() {
    let mut req = find_request(None);
    req.limit = Some(5);
    req.skip = Some(2);
    req.sort = Some(json(r#"{"age":-1}"#));
    req.projection = Some(json("3"));
    assert_eq!(req.coll(), "people");
    let o = req.opts();
    assert_eq!(o.limit, Some(5));
    assert_eq!(o.skip, Some(2));
    assert_eq!(o.sort.unwrap().get_i64("age").unwrap(), -1);
    assert!(o.projection.is_none());
}

#[test]
fn find_without_filter_matches_all() {
    let p = plan_find(&find_request(None)).ok().unwrap();
    assert!(p.filter.is_none());
}

#[test]
fn find_with_object_filter() {
    let p = plan_find(&find_request(Some(r#"{"age":{"$gt":30}}"#))).ok().unwrap();
    assert!(p.filter.unwrap().get_document("age").is_ok());
}

#[test]
fn find_with_scalar_filter_is_client_error() {
    assert_eq!(plan_find(&find_request(Some("42"))).err(), Some(ApiError::BadRequest));
    assert!(matches!(find_request(Some("42")).filter(), Some(Err(TranslationError))));
}

#[test]
fn find_one_projection_and_filter() {
    let req = FindOneRequest {
        data_source: None,
        database: None,
        collection: "people".to_string(),
        filter: Some(json(r#"{"name":"ann"}"#)),
        projection: Some(json(r#"{"name":1}"#)),
    };
    let p = plan_find_one(&req).ok().unwrap();
    assert_eq!(p.filter.unwrap().get_str("name").unwrap(), "ann");
    assert_eq!(p.options.projection.unwrap().get_i64("name").unwrap(), 1);
    let bad = FindOneRequest { filter: Some(json("true")), ..req };
    assert_eq!(plan_find_one(&bad).err(), Some(ApiError::BadRequest));
}

#[test]
fn find_one_miss_is_empty_document() {
    let r: Result<Option<bson::Document>, String> = Ok(None);
    assert!(matches!(find_one_outcome(r), Ok(FoundOne::NoMatch)));
}

#[test]
fn find_one_hit_and_failure() {
    let d = parse_filter(&json(r#"{"x":1}"#)).unwrap();
    let hit: Result<Option<bson::Document>, String> = Ok(Some(d));
    match find_one_outcome(hit) {
        Ok(FoundOne::Match(m)) => assert_eq!(m.get_i64("x").unwrap(), 1),
        _ => panic!("expected a match"),
    }
    let failed: Result<Option<bson::Document>, String> = Err("down".to_string());
    assert_eq!(find_one_outcome(failed).err(), Some(ApiError::Internal));
}

#[test]
fn insert_one_translates_document() {
    let req = InsertOneRequest {
        data_source: None,
        database: None,
        collection: "people".to_string(),
        document: json(r#"{"name":"bob"}"#),
        bypass_document_validation: Some(true),
        write_concern: None,
    };
    let p = plan_insert_one(&req).ok().unwrap();
    assert_eq!(p.document.get_str("name").unwrap(), "bob");
    assert_eq!(p.options.bypass_document_validation, Some(true));
    let bad = InsertOneRequest { document: json("[1]"), ..req };
    assert_eq!(plan_insert_one(&bad).err(), Some(ApiError::BadRequest));
}

#[test]
fn insert_many_empty_list_succeeds() {
    let req = InsertManyRequest {
        data_source: None,
        database: None,
        collection: "people".to_string(),
        documents: vec![],
        bypass_document_validation: None,
        write_concern: None,
        ordered: Some(false),
    };
    let p = plan_insert_many(&req).ok().unwrap();
    assert_eq!(p.documents.len(), 0);
    assert_eq!(p.options.ordered, Some(false));
}

#[test]
fn insert_many_with_bad_document_fails() {
    let req = InsertManyRequest {
        data_source: None,
        database: None,
        collection: "people".to_string(),
        documents: vec![json(r#"{"a":1}"#), json("\"b\"")],
        bypass_document_validation: None,
        write_concern: None,
        ordered: None,
    };
    assert!(req.payload().is_err());
    assert_eq!(plan_insert_many(&req).err(), Some(ApiError::BadRequest));
}

#[test]
fn update_without_filter_goes_ahead() {
    let req = update_request(None, r#"{"$set":{"a":1}}"#, None);
    let p = plan_update(&req).ok().unwrap();
    assert!(p.filter.is_none());
    assert!(p.update.get_document("$set").is_ok());
    assert_eq!(p.options.upsert, Some(false));
    assert!(p.options.array_filters.is_none());
}

#[test]
fn update_with_scalar_filter_is_client_error() {
    let req = update_request(Some("1"), r#"{"$set":{"a":1}}"#, None);
    assert_eq!(plan_update(&req).err(), Some(ApiError::BadRequest));
    assert_eq!(plan_replace(&req).err(), Some(ApiError::BadRequest));
}

#[test]
fn update_with_scalar_payload_is_client_error() {
    let req = update_request(Some(r#"{"a":1}"#), "3", None);
    assert_eq!(plan_update(&req).err(), Some(ApiError::BadRequest));
}

#[test]
fn update_keeps_good_array_filters() {
    let req = update_request(Some(r#"{"a":1}"#), r#"{"$set":{"xs.$[e]":0}}"#, Some(vec![r#"{"e":{"$gt":2}}"#]));
    let p = plan_update(&req).ok().unwrap();
    assert_eq!(p.options.array_filters.unwrap().len(), 1);
}

#[test]
fn update_drops_bad_array_filters() {
    let req = update_request(
        Some(r#"{"a":1}"#),
        r#"{"$set":{"xs.$[e]":0}}"#,
        Some(vec![r#"{"e":{"$gt":2}}"#, "17"]),
    );
    let p = plan_update(&req).ok().unwrap();
    assert!(p.options.array_filters.is_none());
}

#[test]
fn replace_without_filter_goes_ahead() {
    let req = update_request(None, r#"{"name":"new"}"#, Some(vec!["1"]));
    let p = plan_replace(&req).ok().unwrap();
    assert!(p.filter.is_none());
    assert_eq!(p.replacement.get_str("name").unwrap(), "new");
    assert_eq!(p.options.bypass_document_validation, Some(true));
    assert_eq!(p.options.upsert, Some(false));
}

#[test]
fn replace_options_keep_shared_fields() {
    let u = UpdateOptions {
        bypass_document_validation: Some(false),
        upsert: Some(true),
        write_concern: None,
        array_filters: Some(vec![]),
    };
    let r = ReplaceOptions::from(UpdateOptionsWrapper(u));
    assert_eq!(r.bypass_document_validation, Some(false));
    assert_eq!(r.upsert, Some(true));
    assert!(r.write_concern.is_none());
}

#[test]
fn delete_without_filter_goes_ahead() {
    let req = DeleteRequest {
        data_source: None,
        database: None,
        collection: "people".to_string(),
        filter: None,
        write_concern: None,
    };
    assert!(plan_delete(&req).ok().unwrap().filter.is_none());
    let bad = DeleteRequest { filter: Some(json("false")), ..req };
    assert_eq!(plan_delete(&bad).err(), Some(ApiError::BadRequest));
}

#[test]
fn aggregate_translates_every_stage() {
    let req = aggregate_request(vec![r#"{"$match":{"a":1}}"#, r#"{"$limit":5}"#]);
    assert_eq!(req.coll(), "orders");
    let p = plan_aggregate(&req).ok().unwrap();
    assert_eq!(p.pipeline.len(), 2);
    assert!(p.pipeline[0].get_document("$match").is_ok());
    assert_eq!(p.pipeline[1].get_i64("$limit").unwrap(), 5);
    assert_eq!(p.options.batch_size, Some(10));
}

#[test]
fn aggregate_with_one_bad_stage_fails() {
    let req = aggregate_request(vec![r#"{"$match":{"a":1}}"#, "\"$limit\"", r#"{"$limit":5}"#]);
    assert_eq!(plan_aggregate(&req).err(), Some(ApiError::BadRequest));
}

#[test]
fn store_failures_are_server_errors() {
    let ok: Result<u32, String> = Ok(3);
    assert_eq!(store_outcome(ok), Ok(3));
    let failed: Result<u32, String> = Err("timeout".to_string());
    assert_eq!(store_outcome(failed), Err(ApiError::Internal));
}

#[test]
fn status_codes() {
    assert_eq!(ApiError::BadRequest.status_code(), 400);
    assert_eq!(ApiError::Internal.status_code(), 500);
}

#[test]
fn concerns_are_carried_into_options() {
    let wc = mongodb::options::WriteConcern::builder().journal(true).build();
    let rc = mongodb::options::ReadConcern::majority();
    let mut req = aggregate_request(vec![]);
    req.write_concern = Some(wc.clone());
    req.read_concern = Some(rc.clone());
    req.bypass_document_validation = Some(true);
    let o = req.opts();
    assert_eq!(o.write_concern, Some(wc.clone()));
    assert_eq!(o.read_concern, Some(rc));
    assert_eq!(o.bypass_document_validation, Some(true));
    let del = DeleteRequest {
        data_source: None,
        database: None,
        collection: "people".to_string(),
        filter: None,
        write_concern: Some(wc.clone()),
    };
    assert_eq!(plan_delete(&del).ok().unwrap().options.write_concern, Some(wc));
}

#[test]
fn empty_pipeline_is_valid() {
    let p = plan_aggregate(&aggregate_request(vec![])).ok().unwrap();
    assert_eq!(p.pipeline.len(), 0);
}
