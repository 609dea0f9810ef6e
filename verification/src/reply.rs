//! What the database answers to a request, and what the answer means.

use mongodb::error::Error;
use mongodb::error::ErrorKind;
use mongodb::error::WriteFailure;
use vstd::prelude::*;

verus! {

/// The driver's error type, carried through as it came.
#[verifier::external_type_specification]
#[verifier::external_body]
pub struct ExError(Error);

/// The code of the write error that `e` reports, or `None` where `e` is any
/// other kind of error.
pub uninterp spec fn write_error_code(e: Error) -> Option<i32>;

/// The code with which the database rejects a write that would store a second
/// record under one identity.
pub const DUPLICATE_KEY: i32 = 11000;

/// What the database reported of a conditional upsert that it carried out.
#[derive(Clone, Copy, Debug, PartialEq, Eq, Structural)]
pub struct UpdateSummary {
    /// A new record was inserted.
    pub upserted: bool,
    /// The number of existing records that the write changed.
    pub modified_count: u64,
}

impl UpdateSummary {
    /// The write created the record or changed exactly one.
    pub open spec fn took_effect(self) -> bool {
        self.upserted || self.modified_count == 1
    }
}

/// `e` is the rejection of a write for a duplicate identity: another
/// acquirer's record is in place.
pub open spec fn is_conflict(e: Error) -> bool {
    write_error_code(e) == Some(DUPLICATE_KEY)
}

/// The answer to an acquisition's write says that the lock was taken.
pub open spec fn acquired(reply: Result<UpdateSummary, Error>) -> bool {
    match reply {
        Ok(summary) => summary.took_effect(),
        Err(_) => false,
    }
}

/// The answer to an acquisition's write says that somebody else holds the
/// lock.
pub open spec fn contended(reply: Result<UpdateSummary, Error>) -> bool {
    match reply {
        Ok(summary) => !summary.took_effect(),
        Err(e) => is_conflict(e),
    }
}

/// The answer to an acquisition's write is a failure that says nothing of the
/// lock: whether the write was applied is not known.
pub open spec fn failed(reply: Result<UpdateSummary, Error>) -> bool {
    match reply {
        Ok(_) => false,
        Err(e) => !is_conflict(e),
    }
}

/// Reads `Error::kind`: for `ErrorKind::Write(WriteFailure::WriteError(w))`
/// the field `w.code`, for every other kind `None`. The contract only gives
/// that value its name.
#[verifier::external_body]
fn code_of_write_error(err: &Error) -> (code: Option<i32>)
    ensures
        code == write_error_code(*err),
{
    match *err.kind {
        ErrorKind::Write(WriteFailure::WriteError(ref w)) => Some(w.code),
        _ => None,
    }
}

/// Whether `err` is the rejection of a write for a duplicate identity.
pub fn is_duplicate_key(err: &Error) -> (conflict: bool)
    ensures
        conflict == is_conflict(*err),
{
    match code_of_write_error(err) {
        Some(code) => code == DUPLICATE_KEY,
        None => false,
    }
}

} // verus!
