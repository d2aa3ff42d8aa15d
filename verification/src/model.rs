use vstd::prelude::*;

use crate::thread_id::{uuid_parse, ThreadId};
use crate::time::{millis_in_range, UtcDateTime};

verus! {

/// A text pinned to a thread, as the state database holds it.
#[derive(Debug)]
pub struct ThreadContextPin {
    pub thread_id: ThreadId,
    pub pin_id: String,
    pub text: String,
    pub created_at: UtcDateTime,
    pub updated_at: UtcDateTime,
}

/// What a pin holds, as mathematical values; times in milliseconds since the epoch.
pub ghost struct ThreadContextPinView {
    pub thread_id: u128,
    pub pin_id: Seq<char>,
    pub text: Seq<char>,
    pub created_at: int,
    pub updated_at: int,
}

impl View for ThreadContextPin {
    type V = ThreadContextPinView;

    open spec fn view(&self) -> ThreadContextPinView {
        ThreadContextPinView {
            thread_id: self.thread_id@,
            pin_id: self.pin_id@,
            text: self.text@,
            created_at: self.created_at@,
            updated_at: self.updated_at@,
        }
    }
}

impl Clone for ThreadContextPin {
    fn clone(&self) -> (r: Self)
        ensures
            r@ == self@,
    {
        ThreadContextPin {
            thread_id: self.thread_id,
            pin_id: self.pin_id.clone(),
            text: self.text.clone(),
            created_at: self.created_at,
            updated_at: self.updated_at,
        }
    }
}

/// The columns of a row of the pins table, as plain values.
#[derive(Debug)]
pub struct ThreadContextPinRow {
    pub thread_id: String,
    pub pin_id: String,
    pub text: String,
    pub created_at_ms: i64,
    pub updated_at_ms: i64,
}

/// Why a row of the pins table does not make a pin.
#[derive(Debug)]
pub enum PinRowError {
    /// The thread id column is not a UUID.
    InvalidThreadId(uuid::Error),
    /// A time column is outside the range of representable instants.
    InvalidTimestamp { millis: i64 },
}

/// Whether a row makes a pin.
pub open spec fn row_is_valid(row: ThreadContextPinRow) -> bool {
    &&& uuid_parse(row.thread_id@) is Some
    &&& millis_in_range(row.created_at_ms as int)
    &&& millis_in_range(row.updated_at_ms as int)
}

/// The pin that a valid row makes.
pub open spec fn row_pin_view(row: ThreadContextPinRow) -> ThreadContextPinView {
    ThreadContextPinView {
        thread_id: uuid_parse(row.thread_id@)->0,
        pin_id: row.pin_id@,
        text: row.text@,
        created_at: row.created_at_ms as int,
        updated_at: row.updated_at_ms as int,
    }
}

/// The error that an invalid row gives: its columns are checked in order.
pub open spec fn row_error_matches(row: ThreadContextPinRow, e: PinRowError) -> bool {
    if uuid_parse(row.thread_id@) is None {
        e is InvalidThreadId
    } else if !millis_in_range(row.created_at_ms as int) {
        e matches PinRowError::InvalidTimestamp { millis } && millis == row.created_at_ms
    } else {
        e matches PinRowError::InvalidTimestamp { millis } && millis == row.updated_at_ms
    }
}

impl ThreadContextPin {
    /// The pin that a row of the pins table holds.
    pub fn try_from(row: ThreadContextPinRow) -> (r: Result<ThreadContextPin, PinRowError>)
        ensures
            r is Ok <==> row_is_valid(row),
            r matches Ok(pin) ==> pin@ == row_pin_view(row),
            r matches Err(e) ==> row_error_matches(row, e),
    {
        let thread_id = match ThreadId::from_string(row.thread_id.as_str()) {
            Ok(id) => id,
            Err(e) => {
                return Err(PinRowError::InvalidThreadId(e));
            },
        };
        let created_at = match UtcDateTime::from_timestamp_millis(row.created_at_ms) {
            Some(dt) => dt,
            None => {
                return Err(PinRowError::InvalidTimestamp { millis: row.created_at_ms });
            },
        };
        let updated_at = match UtcDateTime::from_timestamp_millis(row.updated_at_ms) {
            Some(dt) => dt,
            None => {
                return Err(PinRowError::InvalidTimestamp { millis: row.updated_at_ms });
            },
        };
        Ok(ThreadContextPin { thread_id, pin_id: row.pin_id, text: row.text, created_at, updated_at })
    }
}

/// The pins that rows of the pins table hold, in the order of the rows; the error of
/// the first row that makes no pin.
pub fn pins_from_rows(rows: Vec<ThreadContextPinRow>) -> (r: Result<
    Vec<ThreadContextPin>,
    PinRowError,
>)
    ensures
        r is Ok <==> forall|i: int| 0 <= i < rows@.len() ==> row_is_valid(#[trigger] rows@[i]),
        r matches Ok(pins) ==> {
            &&& pins@.len() == rows@.len()
            &&& forall|i: int|
                0 <= i < rows@.len() ==> #[trigger] pins@[i]@ == row_pin_view(rows@[i])
        },
        r matches Err(e) ==> exists|k: int|
            {
                &&& 0 <= k < rows@.len()
                &&& !row_is_valid(#[trigger] rows@[k])
                &&& row_error_matches(rows@[k], e)
                &&& forall|i: int| 0 <= i < k ==> row_is_valid(#[trigger] rows@[i])
            },
{
    let ghost all = rows@;
    let mut pins: Vec<ThreadContextPin> = Vec::new();
    let mut rest = rows;
    let ghost n = all.len();
    while rest.len() > 0
        invariant
            n == all.len(),
            all == rows@,
            pins@.len() + rest@.len() == n,
            rest@ == all.subrange(pins@.len() as int, n as int),
            forall|i: int| 0 <= i < pins@.len() ==> row_is_valid(#[trigger] all[i]),
            forall|i: int| 0 <= i < pins@.len() ==> #[trigger] pins@[i]@ == row_pin_view(all[i]),
        decreases rest@.len(),
    {
        let ghost k = pins@.len() as int;
        assert(rest@[0] == all[k]);
        let row = rest.remove(0);
        assert(rest@ =~= all.subrange(k + 1, n as int));
        match ThreadContextPin::try_from(row) {
            Ok(pin) => {
                pins.push(pin);
            },
            Err(e) => {
                assert(!row_is_valid(all[k]));
                assert(row_error_matches(all[k], e));
                assert(!row_is_valid(rows@[k]));
                return Err(e);
            },
        }
    }
    Ok(pins)
}

} // verus!
