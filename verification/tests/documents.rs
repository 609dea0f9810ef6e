use mongo_lock::document::single;
use mongo_lock::prepare_database;
use mongo_lock::request::{
    database_name, AcquireRequest, DeleteRequest, COLLECTION_NAME, DEFAULT_DB_NAME,
};
use mongodb::bson::{Bson, DateTime, Document};

fn one(name: &str, value: Bson) -> Document {
    let mut doc = Document::new();
    doc.insert(name, value);
    doc
}

#[test]
fn the_filter_matches_the_stale_record_of_the_key() {
    let request = AcquireRequest::new("my-key", 1_000, 30_000);
    let mut expected = Document::new();
    expected.insert("_id", "my-key");
    expected.insert("expiresAt", one("$lte", Bson::DateTime(DateTime::from_millis(1_000))));
    assert_eq!(request.filter(), expected);
}

#[test]
fn the_filter_names_the_key_first() {
    let filter = AcquireRequest::new("k", 7, 1).filter();
    let names: Vec<String> = filter.keys().cloned().collect();
    assert_eq!(names, vec!["_id".to_string(), "expiresAt".to_string()]);
}

#[test]
fn the_update_sets_the_end_of_the_lease_and_the_key_on_insert() {
    let request = AcquireRequest::new("my-key", 1_000, 30_000);
    let mut expected = Document::new();
    expected.insert("$set", one("expiresAt", Bson::DateTime(DateTime::from_millis(31_000))));
    expected.insert("$setOnInsert", one("_id", Bson::String("my-key".to_string())));
    assert_eq!(request.update(), expected);
    let names: Vec<String> = request.update().keys().cloned().collect();
    assert_eq!(names, vec!["$set".to_string(), "$setOnInsert".to_string()]);
}

#[test]
fn the_request_holds_what_it_was_made_of() {
    let request = AcquireRequest::new("my-key", 1_000, 30_000);
    assert_eq!(request.key, "my-key");
    assert_eq!(request.now, 1_000);
    assert_eq!(request.expires_at, 31_000);
}

#[test]
fn the_delete_matches_the_record_of_the_key() {
    let request = DeleteRequest { key: "my-key".to_string() };
    assert_eq!(request.filter(), one("_id", Bson::String("my-key".to_string())));
}

#[test]
fn the_index_is_ascending_on_the_end_of_the_lease_and_removes_at_once() {
    let request = prepare_database();
    assert_eq!(request.keys, one("expiresAt", Bson::Int32(1)));
    assert_eq!(request.expire_after_secs, 0);
}

#[test]
fn a_document_of_one_field_holds_that_field() {
    let doc = single("n", Bson::Int32(3));
    assert_eq!(doc.len(), 1);
    assert_eq!(doc.get_i32("n").unwrap(), 3);
}

#[test]
fn the_records_live_in_the_named_database_or_in_the_default_one() {
    assert_eq!(database_name(Some("shop".to_string())), "shop");
    assert_eq!(database_name(None), "mongo-lock");
    assert_eq!(DEFAULT_DB_NAME, "mongo-lock");
    assert_eq!(COLLECTION_NAME, "locks");
}
