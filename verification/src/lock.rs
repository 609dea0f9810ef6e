//! The handle of an acquired lock.

use crate::clock::{duration_millis, now_and_expires_at};
use crate::reply::{acquired, contended, failed, is_duplicate_key, UpdateSummary};
use crate::request::{lease, AcquireRequest, DeleteRequest};
use mongodb::error::Error;
use std::time::Duration;
use vstd::prelude::*;

verus! {

/// Distributed mutex lock.
///
/// A handle exists only for an acquisition that the database confirmed. It is
/// held until the database has answered its release, and is never held again.
///
/// The release removes the record of the key, whoever wrote it: a handle that
/// is released after its lease has run out removes the record of the process
/// that holds the key by then. Choose leases that outlast the work.
pub struct Lock {
    id: String,
    acquired: bool,
}

/// What a handle stands for.
pub struct LockView {
    /// The key that was locked.
    pub key: Seq<char>,
    /// The handle has not been released yet.
    pub held: bool,
}

impl View for Lock {
    type V = LockView;

    closed spec fn view(&self) -> LockView {
        LockView { key: self.id@, held: self.acquired }
    }
}

impl Lock {
    /// The write that attempts to lock `key` for `ttl`, starting now. The
    /// clock is read once, for the instant of the attempt and for the end of
    /// the lease.
    pub fn acquire_request(key: &str, ttl: Duration) -> (request: AcquireRequest)
        ensures
            request@ == lease(key@, request@.now, duration_millis(ttl) as int),
    {
        let (now, expires_at) = now_and_expires_at(ttl);
        AcquireRequest { key: key.to_owned(), now, expires_at }
    }

    /// Decides an acquisition of `key` by the database's answer to its
    /// write: a handle where the write took effect, `None` where another
    /// holder's record stood in the way, and the error itself for any other
    /// failure.
    pub fn try_acquire(key: &str, reply: Result<UpdateSummary, Error>) -> (outcome: Result<
        Option<Lock>,
        Error,
    >)
        ensures
            acquired(reply) ==> (outcome matches Ok(Some(lock)) && lock@ == (LockView {
                key: key@,
                held: true,
            })),
            contended(reply) ==> outcome matches Ok(None),
            failed(reply) ==> (reply matches Err(e) && outcome == Err::<
                Option<Lock>,
                Error,
            >(e)),
    {
        match reply {
            Ok(summary) => {
                if summary.upserted || summary.modified_count == 1 {
                    Ok(Some(Lock { id: key.to_owned(), acquired: true }))
                } else {
                    Ok(None)
                }
            },
            Err(err) => {
                if is_duplicate_key(&err) {
                    Ok(None)
                } else {
                    Err(err)
                }
            },
        }
    }

    /// The key that this handle locked.
    pub fn key(&self) -> (key: &str)
        ensures
            key@ == self@.key,
    {
        self.id.as_str()
    }

    /// Whether the handle still holds its lock.
    pub fn is_held(&self) -> (held: bool)
        ensures
            held == self@.held,
    {
        self.acquired
    }

    /// The delete that releases this handle's lock, or `None` where the
    /// handle holds none: then there is nothing to send.
    pub fn release_request(&self) -> (request: Option<DeleteRequest>)
        ensures
            self@.held ==> (request matches Some(r) && r@ == self@.key),
            !self@.held ==> request is None,
    {
        if self.acquired {
            Some(DeleteRequest { key: self.id.clone() })
        } else {
            None
        }
    }

    /// Takes the database's answer to the delete of `release_request`: the
    /// number of records removed, or the failure. An answer ends the hold and
    /// the result says whether exactly one record was removed; a failure
    /// leaves the handle held and is returned. A handle that holds nothing
    /// stays as it is and the result is `false`.
    pub fn release(&mut self, reply: Result<u64, Error>) -> (outcome: Result<bool, Error>)
        ensures
            final(self)@.key == old(self)@.key,
            !old(self)@.held ==> !final(self)@.held && outcome == Ok::<bool, Error>(false),
            old(self)@.held ==> match reply {
                Ok(deleted) => !final(self)@.held && outcome == Ok::<bool, Error>(deleted == 1),
                Err(e) => final(self)@.held && outcome == Err::<bool, Error>(e),
            },
    {
        if self.acquired {
            match reply {
                Ok(deleted) => {
                    self.acquired = false;
                    Ok(deleted == 1)
                },
                Err(err) => Err(err),
            }
        } else {
            Ok(false)
        }
    }
}

} // verus!
