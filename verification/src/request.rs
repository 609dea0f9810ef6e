//! The requests that the protocol sends to the database.

use crate::clock::{expires_at, expiry_of};
use crate::document::{append, date, fields, int32, nested, single, text, Value};
use mongodb::bson::Document;
use vstd::prelude::*;

verus! {

/// The collection that holds the lock records.
pub const COLLECTION_NAME: &'static str = "locks";

/// The database that holds the collection where the client names none.
pub const DEFAULT_DB_NAME: &'static str = "mongo-lock";

/// The database that holds the lock records: the one that the client's
/// connection string names, or `DEFAULT_DB_NAME`.
pub fn database_name(named: Option<String>) -> (name: String)
    ensures
        name@ == match named {
            Some(n) => n@,
            None => DEFAULT_DB_NAME@,
        },
{
    match named {
        Some(n) => n,
        None => DEFAULT_DB_NAME.to_owned(),
    }
}

/// The conditional write that acquires a lock: where a record of `key` exists
/// whose lease ended at `now` or before, set its end to `expires_at`; where no
/// record of `key` exists, insert one with that end. It is sent as an update
/// of one record with `filter`, `update` and the upsert option set.
pub struct AcquireRequest {
    /// The key of the lock.
    pub key: String,
    /// The instant of the attempt.
    pub now: i64,
    /// The end of the lease that the attempt asks for.
    pub expires_at: i64,
}

/// What an `AcquireRequest` holds.
pub struct AcquireRequestView {
    /// The key of the lock.
    pub key: Seq<char>,
    /// The instant of the attempt.
    pub now: int,
    /// The end of the lease that the attempt asks for.
    pub expires_at: int,
}

impl View for AcquireRequest {
    type V = AcquireRequestView;

    open spec fn view(&self) -> AcquireRequestView {
        AcquireRequestView { key: self.key@, now: self.now as int, expires_at: self.expires_at as int }
    }
}

/// The request of an attempt at `now` to lock `key` for `ttl_millis`
/// milliseconds.
pub open spec fn lease(key: Seq<char>, now: int, ttl_millis: int) -> AcquireRequestView {
    AcquireRequestView { key, now, expires_at: expiry_of(now, ttl_millis) }
}

impl AcquireRequestView {
    /// The filter of the write: the record of the key, if its lease has
    /// ended.
    pub open spec fn filter(self) -> Seq<(Seq<char>, Value)> {
        seq![
            ("_id"@, Value::Text(self.key)),
            ("expiresAt"@, Value::Nested(seq![("$lte"@, Value::Date(self.now))])),
        ]
    }

    /// The update of the write: the new end of the lease, and the key where
    /// the record is inserted.
    pub open spec fn update(self) -> Seq<(Seq<char>, Value)> {
        seq![
            ("$set"@, Value::Nested(seq![("expiresAt"@, Value::Date(self.expires_at))])),
            ("$setOnInsert"@, Value::Nested(seq![("_id"@, Value::Text(self.key))])),
        ]
    }
}

impl AcquireRequest {
    /// The request of an attempt at `now` to lock `key` for `ttl_millis`
    /// milliseconds.
    pub fn new(key: &str, now: i64, ttl_millis: u128) -> (request: AcquireRequest)
        ensures
            request@ == lease(key@, now as int, ttl_millis as int),
    {
        AcquireRequest { key: key.to_owned(), now, expires_at: expires_at(now, ttl_millis) }
    }

    /// The filter of the write.
    pub fn filter(&self) -> (doc: Document)
        ensures
            fields(doc) == self@.filter(),
    {
        let mut doc = single("_id", text(self.key.as_str()));
        proof {
            reveal_strlit("_id");
            reveal_strlit("expiresAt");
            assert("_id"@.len() != "expiresAt"@.len());
            assert(fields(doc)[0].0 == "_id"@);
        }
        append(&mut doc, "expiresAt", nested(single("$lte", date(self.now))));
        doc
    }

    /// The update of the write.
    pub fn update(&self) -> (doc: Document)
        ensures
            fields(doc) == self@.update(),
    {
        let mut doc = single("$set", nested(single("expiresAt", date(self.expires_at))));
        proof {
            reveal_strlit("$set");
            reveal_strlit("$setOnInsert");
            assert("$set"@.len() != "$setOnInsert"@.len());
            assert(fields(doc)[0].0 == "$set"@);
        }
        append(&mut doc, "$setOnInsert", nested(single("_id", text(self.key.as_str()))));
        doc
    }
}

/// The delete that releases a lock: remove the record whose identity is the
/// key.
pub struct DeleteRequest {
    /// The key of the lock.
    pub key: String,
}

impl View for DeleteRequest {
    type V = Seq<char>;

    open spec fn view(&self) -> Seq<char> {
        self.key@
    }
}

impl DeleteRequest {
    /// The filter of the delete.
    pub fn filter(&self) -> (doc: Document)
        ensures
            fields(doc) == seq![("_id"@, Value::Text(self@))],
    {
        single("_id", text(self.key.as_str()))
    }
}

/// The index that lets the database remove the records of ended leases by
/// itself.
pub struct IndexRequest {
    /// The indexed fields, each with its direction.
    pub keys: Document,
    /// The seconds after the indexed instant at which a record may be
    /// removed.
    pub expire_after_secs: u64,
}

/// What an `IndexRequest` holds.
pub struct IndexRequestView {
    /// The indexed fields, each with its direction.
    pub keys: Seq<(Seq<char>, Value)>,
    /// The seconds after the indexed instant at which a record may be
    /// removed.
    pub expire_after_secs: int,
}

impl View for IndexRequest {
    type V = IndexRequestView;

    open spec fn view(&self) -> IndexRequestView {
        IndexRequestView {
            keys: fields(self.keys),
            expire_after_secs: self.expire_after_secs as int,
        }
    }
}

/// The index of the lock records: ascending on the end of the lease, with
/// removal as soon as that instant has passed.
pub open spec fn expiry_index() -> IndexRequestView {
    IndexRequestView { keys: seq![("expiresAt"@, Value::Int32(1))], expire_after_secs: 0 }
}

/// Prepares MongoDB collection to store locks.
///
/// Returns the index to create, which lets the database remove old records
/// after they expire. The database removes them with a delay of its own, so
/// the protocol never relies on it: an acquisition tests the end of the lease
/// itself. Creating an index that exists changes nothing, so the request may
/// be sent at every start.
pub fn prepare_database() -> (request: IndexRequest)
    ensures
        request@ == expiry_index(),
{
    IndexRequest { keys: single("expiresAt", int32(1)), expire_after_secs: 0 }
}

} // verus!
