use mongo_lock::reply::{is_duplicate_key, UpdateSummary, DUPLICATE_KEY};
use mongo_lock::Lock;
use mongodb::bson::{from_document, Document};
use mongodb::error::{Error, ErrorKind, WriteConcernError, WriteError, WriteFailure};

fn write_error(code: i32) -> Error {
    let mut doc = Document::new();
    doc.insert("code", code);
    doc.insert("errmsg", "rejected");
    let rejected: WriteError = from_document(doc).unwrap();
    Error::from(ErrorKind::Write(WriteFailure::WriteError(rejected)))
}

fn write_concern_error(code: i32) -> Error {
    let mut doc = Document::new();
    doc.insert("code", code);
    doc.insert("codeName", "DuplicateKey");
    doc.insert("errmsg", "not replicated");
    let unmet: WriteConcernError = from_document(doc).unwrap();
    Error::from(ErrorKind::Write(WriteFailure::WriteConcernError(unmet)))
}

#[test]
fn the_code_of_a_duplicate_identity_is_recognised() {
    assert_eq!(DUPLICATE_KEY, 11000);
    assert!(is_duplicate_key(&write_error(11000)));
}

#[test]
fn other_write_errors_are_no_conflict() {
    assert!(!is_duplicate_key(&write_error(11001)));
    assert!(!is_duplicate_key(&write_error(0)));
    assert!(!is_duplicate_key(&write_error(-11000)));
    assert!(!is_duplicate_key(&write_error(121)));
}

#[test]
fn other_kinds_of_error_are_no_conflict() {
    assert!(!is_duplicate_key(&Error::custom(11000)));
    assert!(!is_duplicate_key(&write_concern_error(11000)));
    let io = std::io::Error::new(std::io::ErrorKind::TimedOut, "timed out");
    assert!(!is_duplicate_key(&Error::from(io)));
}

#[test]
fn an_inserted_record_gives_a_held_handle() {
    let reply = Ok(UpdateSummary { upserted: true, modified_count: 0 });
    let lock = Lock::try_acquire("alpha", reply).unwrap().unwrap();
    assert!(lock.is_held());
    assert_eq!(lock.key(), "alpha");
}

#[test]
fn one_modified_record_gives_a_held_handle() {
    let reply = Ok(UpdateSummary { upserted: false, modified_count: 1 });
    let lock = Lock::try_acquire("alpha", reply).unwrap().unwrap();
    assert!(lock.is_held());
    assert_eq!(lock.key(), "alpha");
}

#[test]
fn a_write_without_effect_gives_no_handle() {
    let reply = Ok(UpdateSummary { upserted: false, modified_count: 0 });
    assert!(Lock::try_acquire("alpha", reply).unwrap().is_none());
    let reply = Ok(UpdateSummary { upserted: false, modified_count: 2 });
    assert!(Lock::try_acquire("alpha", reply).unwrap().is_none());
}

#[test]
fn a_conflict_gives_no_handle_and_no_error() {
    assert!(Lock::try_acquire("alpha", Err(write_error(11000))).unwrap().is_none());
}

#[test]
fn any_other_failure_is_returned_as_it_came() {
    let failure = Lock::try_acquire("alpha", Err(write_error(11001))).err().unwrap();
    match *failure.kind {
        ErrorKind::Write(WriteFailure::WriteError(ref rejected)) => assert_eq!(rejected.code, 11001),
        _ => panic!("another kind of error came back"),
    }
    let failure = Lock::try_acquire("alpha", Err(Error::custom("boom"))).err().unwrap();
    assert_eq!(failure.get_custom::<&str>(), Some(&"boom"));
}

#[test]
fn a_handle_is_released_once() {
    let reply = Ok(UpdateSummary { upserted: true, modified_count: 0 });
    let mut lock = Lock::try_acquire("alpha", reply).unwrap().unwrap();
    let request = lock.release_request().unwrap();
    assert_eq!(request.key, "alpha");
    assert_eq!(lock.release(Ok(1)).unwrap(), true);
    assert!(!lock.is_held());
    assert!(lock.release_request().is_none());
    assert_eq!(lock.release(Ok(1)).unwrap(), false);
}

#[test]
fn a_release_that_removed_nothing_returns_false_and_ends_the_hold() {
    let reply = Ok(UpdateSummary { upserted: true, modified_count: 0 });
    let mut lock = Lock::try_acquire("alpha", reply).unwrap().unwrap();
    assert_eq!(lock.release(Ok(0)).unwrap(), false);
    assert!(!lock.is_held());
    let reply = Ok(UpdateSummary { upserted: true, modified_count: 0 });
    let mut lock = Lock::try_acquire("alpha", reply).unwrap().unwrap();
    assert_eq!(lock.release(Ok(2)).unwrap(), false);
    assert!(!lock.is_held());
}

#[test]
fn a_failed_release_keeps_the_handle_held() {
    let reply = Ok(UpdateSummary { upserted: true, modified_count: 0 });
    let mut lock = Lock::try_acquire("alpha", reply).unwrap().unwrap();
    assert!(lock.release(Err(Error::custom("boom"))).is_err());
    assert!(lock.is_held());
    assert_eq!(lock.release_request().unwrap().key, "alpha");
    assert!(lock.release(Err(write_error(11000))).is_err());
    assert!(lock.is_held());
}
