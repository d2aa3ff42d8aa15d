use std::sync::Arc;

use vstd::prelude::*;

use crate::model::ThreadContextPinRow;
use crate::thread_id::{is_v4_uuid, new_random_id, uuid_hyphenated, ThreadId};
use crate::time::{millis_in_range, UtcDateTime};

verus! {

/// The pins table of the state database, reached through the connection pool `P`
/// (an `sqlx::SqlitePool` in the server).
pub struct ThreadContextPinStore<P> {
    pool: Arc<P>,
}

impl<P> Clone for ThreadContextPinStore<P> {
    fn clone(&self) -> (s: Self)
        ensures
            s.pool_spec() == self.pool_spec(),
    {
        ThreadContextPinStore { pool: Arc::clone(&self.pool) }
    }
}

impl<P> ThreadContextPinStore<P> {
    /// The connection pool that the store reads and writes through.
    pub closed spec fn pool_spec(&self) -> Arc<P> {
        self.pool
    }

    /// A store over the given connection pool.
    pub fn new(pool: Arc<P>) -> (s: ThreadContextPinStore<P>)
        ensures
            s.pool_spec() == pool,
    {
        ThreadContextPinStore { pool }
    }

    /// The connection pool of the store.
    pub fn pool(&self) -> (p: &Arc<P>)
        ensures
            *p == self.pool_spec(),
    {
        &self.pool
    }

    /// The row that creating a pin with text `text` on thread `thread_id` inserts: a
    /// new random pin id, and the current time as both creation and update time.
    pub fn new_pin_row(thread_id: ThreadId, text: &str) -> (row: ThreadContextPinRow)
        ensures
            row.thread_id@ == uuid_hyphenated(thread_id@),
            exists|v: u128| row.pin_id@ == uuid_hyphenated(v) && is_v4_uuid(v),
            row.text@ == text@,
            row.created_at_ms == row.updated_at_ms,
            millis_in_range(row.created_at_ms as int),
            row.created_at_ms >= 0,
    {
        let pin_id = new_random_id();
        let now_ms = UtcDateTime::now().timestamp_millis();
        ThreadContextPinRow {
            thread_id: thread_id.to_string(),
            pin_id,
            text: text.to_owned(),
            created_at_ms: now_ms,
            updated_at_ms: now_ms,
        }
    }

    /// The time that updating a pin stores as its update time: the current time, in
    /// milliseconds since the epoch.
    pub fn update_time_millis() -> (ms: i64)
        ensures
            millis_in_range(ms as int),
            ms >= 0,
    {
        UtcDateTime::now().timestamp_millis()
    }
}

} // verus!
