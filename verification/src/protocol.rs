//! The protocol against a database that applies each request atomically.
//!
//! Nothing here runs. The module says what the database does with the
//! requests of this crate, as a relation between the records before a request,
//! the answer and the records after it, and proves what the protocol then
//! guarantees. The relations are the assumption under which the laws hold: the
//! database tests a filter and applies the write as one indivisible step, and
//! it keeps at most one record per key.

use crate::reply::{acquired, failed, is_conflict, UpdateSummary};
use crate::request::{expiry_index, lease, AcquireRequestView, IndexRequestView};
use mongodb::error::Error;
use vstd::prelude::*;

verus! {

/// The lock records of the collection: for each key that has a record, the
/// end of its lease.
pub type Records = Map<Seq<char>, int>;

/// A record of `key` exists whose lease has ended at `now`.
pub open spec fn stale(records: Records, key: Seq<char>, now: int) -> bool {
    records.contains_key(key) && records[key] <= now
}

/// A record of `key` exists whose lease has not ended at `now`.
pub open spec fn live(records: Records, key: Seq<char>, now: int) -> bool {
    records.contains_key(key) && now < records[key]
}

/// The records once the write of `request` has been applied: a live record
/// stays as it is; a stale one gets the new end; a missing one is inserted.
pub open spec fn written(records: Records, request: AcquireRequestView) -> Records {
    if live(records, request.key, request.now) {
        records
    } else {
        records.insert(request.key, request.expires_at)
    }
}

/// The database answers `reply` to the write of `request` on the records
/// `before` and leaves the records `after`.
///
/// An answer tells whether a record was inserted and how many were changed; a
/// stale record that already ends at the requested instant may count as
/// changed or not. A live record may be answered by "nothing written" or by
/// the rejection for a duplicate identity, and only a live record is. After
/// any other failure the write may have been applied or not.
pub open spec fn upsert_step(
    before: Records,
    request: AcquireRequestView,
    reply: Result<UpdateSummary, Error>,
    after: Records,
) -> bool {
    match reply {
        Ok(summary) => {
            &&& after == written(before, request)
            &&& summary.upserted == !before.contains_key(request.key)
            &&& summary.modified_count <= 1
            &&& summary.modified_count == 1 ==> stale(before, request.key, request.now)
            &&& stale(before, request.key, request.now) && before[request.key]
                != request.expires_at ==> summary.modified_count == 1
        },
        Err(e) => if is_conflict(e) {
            live(before, request.key, request.now) && after == before
        } else {
            after == before || after == written(before, request)
        },
    }
}

/// The database answers `reply` to the delete of the record of `key` on the
/// records `before` and leaves the records `after`. An answer is the number
/// of records removed; after a failure the delete may have been applied or
/// not.
pub open spec fn delete_step(
    before: Records,
    key: Seq<char>,
    reply: Result<u64, Error>,
    after: Records,
) -> bool {
    match reply {
        Ok(deleted) => {
            &&& after == before.remove(key)
            &&& deleted == (if before.contains_key(key) {
                1u64
            } else {
                0u64
            })
        },
        Err(_) => after == before || after == before.remove(key),
    }
}

/// The database's own sweep removes the record of `key` at the instant `at`:
/// it removes only records whose lease has ended.
pub open spec fn purge_step(before: Records, key: Seq<char>, at: int, after: Records) -> bool {
    stale(before, key, at) && after == before.remove(key)
}

/// The database creates the index of `request` on a collection that has the
/// indexes `before`, and then has the indexes `after`: an index that is there
/// already is not created again.
pub open spec fn index_step(
    before: Set<IndexRequestView>,
    request: IndexRequestView,
    after: Set<IndexRequestView>,
) -> bool {
    after == before.insert(request)
}

/// One step of the database, on behalf of any process.
pub ghost enum Event {
    /// An acquisition's write and its answer.
    Acquire { request: AcquireRequestView, reply: Result<UpdateSummary, Error> },
    /// A release's delete and its answer.
    Release { key: Seq<char>, answer: Result<u64, Error> },
    /// The removal of a record by the database's sweep.
    Purge { key: Seq<char>, at: int },
}

impl Event {
    /// The key whose record the step deals with.
    pub open spec fn key(self) -> Seq<char> {
        match self {
            Event::Acquire { request, .. } => request.key,
            Event::Release { key, .. } => key,
            Event::Purge { key, .. } => key,
        }
    }

    /// The step leaves a lock on `key` that ends at `end` to its holder: it
    /// is no release of `key`, and where it deals with `key` it comes before
    /// `end`.
    pub open spec fn respects(self, key: Seq<char>, end: int) -> bool {
        match self {
            Event::Acquire { request, .. } => request.key == key ==> request.now < end,
            Event::Release { key: released, .. } => released != key,
            Event::Purge { key: purged, at } => purged == key ==> at < end,
        }
    }

    /// The step is an acquisition of `key` that was answered with success.
    pub open spec fn acquires(self, key: Seq<char>) -> bool {
        self matches Event::Acquire { request, reply } && request.key == key && acquired(reply)
    }
}

/// The step `event` leads from the records `before` to the records `after`.
pub open spec fn step(before: Records, event: Event, after: Records) -> bool {
    match event {
        Event::Acquire { request, reply } => upsert_step(before, request, reply, after),
        Event::Release { key, answer } => delete_step(before, key, answer, after),
        Event::Purge { key, at } => purge_step(before, key, at, after),
    }
}

/// The steps `events`, in the order in which the database applied them, lead
/// through the records `states`: the first of `states` is where they start,
/// and each of the following is what one step leaves.
pub open spec fn history(states: Seq<Records>, events: Seq<Event>) -> bool {
    &&& states.len() == events.len() + 1
    &&& forall|i: int|
        0 <= i < events.len() ==> step(states[i], #[trigger] events[i], states[i + 1])
}

/// A successful acquisition leaves the record of its key with the end of the
/// lease that it asked for, and it found no live record.
pub proof fn acquisition_records_the_lease(
    before: Records,
    request: AcquireRequestView,
    reply: Result<UpdateSummary, Error>,
    after: Records,
)
    requires
        upsert_step(before, request, reply, after),
        acquired(reply),
    ensures
        !live(before, request.key, request.now),
        after == before.insert(request.key, request.expires_at),
{
}

/// A request on a key whose record is live is never answered with success,
/// and leaves the records as they are.
pub proof fn live_record_refuses(
    before: Records,
    request: AcquireRequestView,
    reply: Result<UpdateSummary, Error>,
    after: Records,
)
    requires
        upsert_step(before, request, reply, after),
        live(before, request.key, request.now),
    ensures
        !acquired(reply),
        after == before,
{
}

/// A step that respects a lock leaves its record in place, and is no
/// successful acquisition of its key.
pub proof fn held_lock_survives_a_step(
    before: Records,
    event: Event,
    after: Records,
    key: Seq<char>,
    end: int,
)
    requires
        step(before, event, after),
        before.contains_key(key),
        before[key] == end,
        event.respects(key, end),
    ensures
        after.contains_key(key),
        after[key] == end,
        !event.acquires(key),
{
}

/// Mutual exclusion, one attempt against another: while the lock that a
/// successful acquisition took has neither been released nor run out, an
/// attempt on the same key fails and changes nothing.
pub proof fn mutual_exclusion(
    before: Records,
    key: Seq<char>,
    now_a: i64,
    ttl_a: u128,
    reply_a: Result<UpdateSummary, Error>,
    between: Records,
    now_b: i64,
    ttl_b: u128,
    reply_b: Result<UpdateSummary, Error>,
    after: Records,
)
    requires
        upsert_step(before, lease(key, now_a as int, ttl_a as int), reply_a, between),
        acquired(reply_a),
        now_b < lease(key, now_a as int, ttl_a as int).expires_at,
        upsert_step(between, lease(key, now_b as int, ttl_b as int), reply_b, after),
    ensures
        !acquired(reply_b),
        after == between,
{
}

/// Mutual exclusion, whatever happens in between: after a successful
/// acquisition, let the database apply any steps of any processes in any
/// order, none of them a release of the key and none on the key at the end of
/// the lease or later. Then the record of the lock stays throughout, and none
/// of the steps is a successful acquisition of the key.
pub proof fn mutual_exclusion_throughout(
    before: Records,
    held: AcquireRequestView,
    reply: Result<UpdateSummary, Error>,
    states: Seq<Records>,
    events: Seq<Event>,
)
    requires
        states.len() > 0,
        upsert_step(before, held, reply, states[0]),
        acquired(reply),
        history(states, events),
        forall|i: int|
            0 <= i < events.len() ==> (#[trigger] events[i]).respects(held.key, held.expires_at),
    ensures
        forall|i: int|
            0 <= i < states.len() ==> (#[trigger] states[i]).contains_key(held.key)
                && states[i][held.key] == held.expires_at,
        forall|i: int| 0 <= i < events.len() ==> !(#[trigger] events[i]).acquires(held.key),
{
    let key = held.key;
    let end = held.expires_at;
    assert forall|i: int| 0 <= i < states.len() implies (#[trigger] states[i]).contains_key(key)
        && states[i][key] == end by {
        lock_stands_after(states, events, key, end, i);
    }
    assert forall|i: int| 0 <= i < events.len() implies !(#[trigger] events[i]).acquires(key) by {
        lock_stands_after(states, events, key, end, i);
        held_lock_survives_a_step(states[i], events[i], states[i + 1], key, end);
    }
}

/// The record of a respected lock stands after the first `n` steps.
proof fn lock_stands_after(
    states: Seq<Records>,
    events: Seq<Event>,
    key: Seq<char>,
    end: int,
    n: int,
)
    requires
        history(states, events),
        states[0].contains_key(key),
        states[0][key] == end,
        forall|i: int| 0 <= i < events.len() ==> (#[trigger] events[i]).respects(key, end),
        0 <= n < states.len(),
    ensures
        states[n].contains_key(key),
        states[n][key] == end,
    decreases n,
{
    if n > 0 {
        lock_stands_after(states, events, key, end, n - 1);
        held_lock_survives_a_step(states[n - 1], events[n - 1], states[n], key, end);
    }
}

/// Re-acquisition after release: once the database has answered the release
/// of an acquired lock, the release has removed one record, and the next
/// attempt on the key that the database answers succeeds.
pub proof fn reacquisition_after_release(
    before: Records,
    first: AcquireRequestView,
    reply_first: Result<UpdateSummary, Error>,
    held: Records,
    deleted: u64,
    released: Records,
    second: AcquireRequestView,
    reply_second: Result<UpdateSummary, Error>,
    after: Records,
)
    requires
        upsert_step(before, first, reply_first, held),
        acquired(reply_first),
        delete_step(held, first.key, Ok(deleted), released),
        second.key == first.key,
        upsert_step(released, second, reply_second, after),
        !failed(reply_second),
    ensures
        deleted == 1,
        acquired(reply_second),
        after == released.insert(second.key, second.expires_at),
{
}

/// Re-acquisition after expiry: an attempt that comes later than the end of
/// an acquired lease, and that the database answers, succeeds without any
/// release.
pub proof fn reacquisition_after_expiry(
    before: Records,
    key: Seq<char>,
    now_a: i64,
    ttl_a: u128,
    reply_a: Result<UpdateSummary, Error>,
    held: Records,
    now_b: i64,
    ttl_b: u128,
    reply_b: Result<UpdateSummary, Error>,
    after: Records,
)
    requires
        upsert_step(before, lease(key, now_a as int, ttl_a as int), reply_a, held),
        acquired(reply_a),
        now_a + ttl_a < now_b,
        upsert_step(held, lease(key, now_b as int, ttl_b as int), reply_b, after),
        !failed(reply_b),
    ensures
        acquired(reply_b),
        after == held.insert(key, lease(key, now_b as int, ttl_b as int).expires_at),
{
}

/// Automatic release: the delete that an abandoned handle sends, whose answer
/// nobody reads, frees the key for the next attempt that the database
/// answers. Where the delete failed, the key is free once the lease has
/// ended.
pub proof fn abandoned_lock_is_acquired_again(
    before: Records,
    key: Seq<char>,
    now_a: i64,
    ttl_a: u128,
    reply_a: Result<UpdateSummary, Error>,
    held: Records,
    unread: Result<u64, Error>,
    left: Records,
    now_b: i64,
    ttl_b: u128,
    reply_b: Result<UpdateSummary, Error>,
    after: Records,
)
    requires
        upsert_step(before, lease(key, now_a as int, ttl_a as int), reply_a, held),
        acquired(reply_a),
        delete_step(held, key, unread, left),
        unread is Ok || now_a + ttl_a < now_b,
        upsert_step(left, lease(key, now_b as int, ttl_b as int), reply_b, after),
        !failed(reply_b),
    ensures
        acquired(reply_b),
        after == left.insert(key, lease(key, now_b as int, ttl_b as int).expires_at),
{
}

/// Idempotent release: a delete that finds no record of its key removes
/// nothing and says so, and after an answered delete a second one finds no
/// record.
pub proof fn release_is_idempotent(
    before: Records,
    key: Seq<char>,
    first: u64,
    between: Records,
    second: u64,
    after: Records,
)
    requires
        delete_step(before, key, Ok(first), between),
        delete_step(between, key, Ok(second), after),
    ensures
        !before.contains_key(key) ==> first == 0 && between == before,
        second == 0,
        after == between,
{
    assert(between.remove(key) =~= between);
    if !before.contains_key(key) {
        assert(before.remove(key) =~= before);
    }
}

/// Preparing the collection again changes nothing.
pub proof fn preparation_is_idempotent(
    before: Set<IndexRequestView>,
    once: Set<IndexRequestView>,
    twice: Set<IndexRequestView>,
)
    requires
        index_step(before, expiry_index(), once),
        index_step(once, expiry_index(), twice),
    ensures
        once.contains(expiry_index()),
        twice == once,
{
    assert(once.insert(expiry_index()) =~= once);
}

/// Independence of keys, as a frame: a step that deals with one key neither
/// reads nor changes the record of another. Whatever record the other key
/// has, the same answer leads to the same change.
pub proof fn keys_are_independent(
    before: Records,
    event: Event,
    after: Records,
    other: Seq<char>,
    end: int,
)
    requires
        step(before, event, after),
        event.key() != other,
    ensures
        after.contains_key(other) == before.contains_key(other),
        before.contains_key(other) ==> after[other] == before[other],
        step(before.insert(other, end), event, after.insert(other, end)),
        step(before.remove(other), event, after.remove(other)),
{
    let key = event.key();
    assert(before.insert(other, end).remove(key) =~= before.remove(key).insert(other, end));
    assert(before.remove(other).remove(key) =~= before.remove(key).remove(other));
    match event {
        Event::Acquire { request, reply } => {
            assert(before.insert(other, end).insert(key, request.expires_at) =~= before.insert(
                key,
                request.expires_at,
            ).insert(other, end));
            assert(before.remove(other).insert(key, request.expires_at) =~= before.insert(
                key,
                request.expires_at,
            ).remove(other));
        },
        _ => {},
    }
}

/// Independence of keys, as the callers see it: two attempts on distinct keys
/// that have no live record, both answered, both succeed, in whichever order
/// the database applies them.
pub proof fn distinct_keys_both_acquire(
    before: Records,
    first: AcquireRequestView,
    reply_first: Result<UpdateSummary, Error>,
    between: Records,
    second: AcquireRequestView,
    reply_second: Result<UpdateSummary, Error>,
    after: Records,
)
    requires
        first.key != second.key,
        vacant(before, first),
        vacant(before, second),
        upsert_step(before, first, reply_first, between),
        upsert_step(between, second, reply_second, after),
        !failed(reply_first),
        !failed(reply_second),
    ensures
        acquired(reply_first),
        acquired(reply_second),
        after == before.insert(first.key, first.expires_at).insert(second.key, second.expires_at),
{
}

/// The key of `request` is there to take: it has no record, or one whose
/// lease has ended and that the request would change.
pub open spec fn vacant(records: Records, request: AcquireRequestView) -> bool {
    records.contains_key(request.key) ==> records[request.key] <= request.now
        && records[request.key] != request.expires_at
}

/// On a key that is there to take, an attempt that the database answers
/// succeeds.
pub proof fn vacant_key_is_acquired(
    before: Records,
    request: AcquireRequestView,
    reply: Result<UpdateSummary, Error>,
    after: Records,
)
    requires
        vacant(before, request),
        upsert_step(before, request, reply, after),
        !failed(reply),
    ensures
        acquired(reply),
        after == before.insert(request.key, request.expires_at),
{
}

} // verus!
