use std::sync::Arc;

use vstd::prelude::*;
use vstd::string::*;

use crate::api::{
    api_pin_view, api_pins_from_state, api_thread_context_pin_from_state, ApiThreadContextPin,
    ApiThreadContextPinView,
};
use crate::error::{
    internal_error, internal_error_view, invalid_request, invalid_request_view, JSONRPCErrorError,
    RpcErrorView,
};
use crate::limits::{
    create_limits_error_message, create_limits_hold, pin_id_error_message, pin_id_is_valid, pins_bytes_fit,
    pin_text_error_message, pin_text_is_valid, pins_bytes, total_bytes_error_message,
    update_limits_hold, validate_context_pin_id, validate_context_pin_text,
    validate_create_context_pin_limits, validate_update_context_pin_limits,
};
use crate::model::ThreadContextPin;
use crate::pagination::{
    api_views, page_end, page_error_message, page_request_is_valid, page_start,
    paginate_context_pins,
};
use crate::text::{concat_str, decimal, str_eq};
use crate::thread_id::{
    uuid_hyphenated, uuid_parse, uuid_parse_error_message, uuid_parse_error_text, ThreadId,
};

verus! {

/// A client request on the pins of a thread, as the app-server protocol carries it.
pub enum ContextPinRequest {
    List { thread_id: String, cursor: Option<String>, limit: Option<u32> },
    Create { thread_id: String, text: String },
    Update { thread_id: String, pin_id: String, text: String },
    Delete { thread_id: String, pin_id: String },
}

/// What a request asks of the thread, once its thread id is parsed.
pub enum ContextPinOp {
    List { cursor: Option<String>, limit: Option<u32> },
    Create { text: String },
    Update { pin_id: String, text: String },
    Delete { pin_id: String },
}

/// What an operation holds, as mathematical values.
pub ghost enum ContextPinOpView {
    List { cursor: Option<Seq<char>>, limit: Option<u32> },
    Create { text: Seq<char> },
    Update { pin_id: Seq<char>, text: Seq<char> },
    Delete { pin_id: Seq<char> },
}

/// The view of an optional string.
pub open spec fn opt_string_view(s: Option<String>) -> Option<Seq<char>> {
    match s {
        Some(t) => Some(t@),
        None => None,
    }
}

impl View for ContextPinOp {
    type V = ContextPinOpView;

    open spec fn view(&self) -> ContextPinOpView {
        match self {
            ContextPinOp::List { cursor, limit } => ContextPinOpView::List {
                cursor: opt_string_view(*cursor),
                limit: *limit,
            },
            ContextPinOp::Create { text } => ContextPinOpView::Create { text: text@ },
            ContextPinOp::Update { pin_id, text } => ContextPinOpView::Update {
                pin_id: pin_id@,
                text: text@,
            },
            ContextPinOp::Delete { pin_id } => ContextPinOpView::Delete { pin_id: pin_id@ },
        }
    }
}

/// The thread id text of a request.
pub open spec fn request_thread_id(r: ContextPinRequest) -> Seq<char> {
    match r {
        ContextPinRequest::List { thread_id, .. } => thread_id@,
        ContextPinRequest::Create { thread_id, .. } => thread_id@,
        ContextPinRequest::Update { thread_id, .. } => thread_id@,
        ContextPinRequest::Delete { thread_id, .. } => thread_id@,
    }
}

/// The operation of a request.
pub open spec fn request_op(r: ContextPinRequest) -> ContextPinOpView {
    match r {
        ContextPinRequest::List { cursor, limit, .. } => ContextPinOpView::List {
            cursor: opt_string_view(cursor),
            limit,
        },
        ContextPinRequest::Create { text, .. } => ContextPinOpView::Create { text: text@ },
        ContextPinRequest::Update { pin_id, text, .. } => ContextPinOpView::Update {
            pin_id: pin_id@,
            text: text@,
        },
        ContextPinRequest::Delete { pin_id, .. } => ContextPinOpView::Delete { pin_id: pin_id@ },
    }
}

/// The error that a request earns before its thread id is read: a blank pin id,
/// then an unacceptable text, in the order the server checks them.
pub open spec fn request_check_error(op: ContextPinOpView) -> Option<RpcErrorView> {
    match op {
        ContextPinOpView::List { .. } => None,
        ContextPinOpView::Create { text } => if !pin_text_is_valid(text) {
            Some(invalid_request_view(pin_text_error_message(text)))
        } else {
            None
        },
        ContextPinOpView::Update { pin_id, text } => if !pin_id_is_valid(pin_id) {
            Some(invalid_request_view(pin_id_error_message()))
        } else if !pin_text_is_valid(text) {
            Some(invalid_request_view(pin_text_error_message(text)))
        } else {
            None
        },
        ContextPinOpView::Delete { pin_id } => if !pin_id_is_valid(pin_id) {
            Some(invalid_request_view(pin_id_error_message()))
        } else {
            None
        },
    }
}

/// Which state database a request works on: the one of the running thread, or the
/// processor's own.
#[derive(Clone, Copy, PartialEq, Eq, Structural, Debug)]
pub enum StateDbSource {
    Thread,
    Processor,
}

/// Which rollout file a reconciliation reads: the running thread's, or the one that
/// the last search located.
#[derive(Clone, Copy, PartialEq, Eq, Structural, Debug)]
pub enum RolloutSource {
    RunningThread,
    Located,
}

/// Where a request stands.
#[derive(Clone, Copy, PartialEq, Eq, Structural, Debug)]
pub enum ContextPinPhase {
    /// Looking the thread up among running threads, to find its state database.
    DbLookupThread,
    /// Searching the rollout of a thread that is not running, among active sessions.
    DbFindActive,
    /// Searching it among archived sessions.
    DbFindArchived,
    /// Looking the thread up again, to bring its rollout into the state database.
    ReconcileLookupThread,
    /// Searching the rollout to reconcile among active sessions.
    ReconcileFindActive,
    /// Searching it among archived sessions.
    ReconcileFindArchived,
    /// Flushing the running thread's rollout.
    ReconcileFlush,
    /// Reconciling the rollout into the state database.
    Reconciling,
    /// Listing the thread's pins.
    Listing,
    /// Creating, updating or deleting a pin.
    Writing,
    /// Answered.
    Done,
}

/// What the server learns about a running thread.
#[derive(Clone, Copy, PartialEq, Eq, Structural, Debug)]
pub struct RunningThread {
    /// Whether the thread records a rollout; ephemeral threads do not.
    pub has_rollout_path: bool,
    /// Whether the thread has a state database of its own.
    pub has_state_db: bool,
}

/// The outcome of the work that the last action asked for.
pub enum ContextPinEvent {
    /// The thread is running, or not.
    ThreadLookedUp(Option<RunningThread>),
    /// A rollout search found the rollout (`true`) or not, or failed with a message.
    RolloutLocated(Result<bool, String>),
    /// The running thread's rollout was flushed, or flushing failed.
    RolloutFlushed(Result<(), String>),
    /// The rollout was reconciled into the state database.
    RolloutReconciled,
    /// The thread's pins, in their stored order, or why they could not be listed.
    PinsListed(Result<Vec<ThreadContextPin>, String>),
    /// The created pin.
    PinCreated(Result<ThreadContextPin, String>),
    /// The updated pin, if the thread held it.
    PinUpdated(Result<Option<ThreadContextPin>, String>),
    /// Whether a pin was deleted.
    PinDeleted(Result<bool, String>),
}

/// The answer to a request.
#[allow(inconsistent_fields)]
pub enum ContextPinResponse {
    List { data: Vec<ApiThreadContextPin>, next_cursor: Option<String> },
    Create { pin: ApiThreadContextPin },
    Update { pin: Option<ApiThreadContextPin> },
    Delete { deleted: bool },
}

/// What an answer holds, as mathematical values.
#[allow(inconsistent_fields)]
pub ghost enum ContextPinResponseView {
    List { data: Seq<ApiThreadContextPinView>, next_cursor: Option<Seq<char>> },
    Create { pin: ApiThreadContextPinView },
    Update { pin: Option<ApiThreadContextPinView> },
    Delete { deleted: bool },
}

impl View for ContextPinResponse {
    type V = ContextPinResponseView;

    open spec fn view(&self) -> ContextPinResponseView {
        match self {
            ContextPinResponse::List { data, next_cursor } => ContextPinResponseView::List {
                data: api_views(data@),
                next_cursor: opt_string_view(*next_cursor),
            },
            ContextPinResponse::Create { pin } => ContextPinResponseView::Create { pin: pin@ },
            ContextPinResponse::Update { pin } => ContextPinResponseView::Update {
                pin: match pin {
                    Some(p) => Some(p@),
                    None => None,
                },
            },
            ContextPinResponse::Delete { deleted } => ContextPinResponseView::Delete {
                deleted: *deleted,
            },
        }
    }
}

/// The work that the server is to do next for a request.
pub enum ContextPinAction {
    /// Look the thread up among the running threads.
    GetThread { thread_id: ThreadId },
    /// Search the thread's rollout among active sessions.
    FindActiveRollout { thread_id: ThreadId },
    /// Search the thread's rollout among archived sessions.
    FindArchivedRollout { thread_id: ThreadId },
    /// Materialize the running thread's rollout and flush it.
    FlushRollout { thread_id: ThreadId },
    /// Reconcile the rollout into the state database.
    ReconcileRollout {
        thread_id: ThreadId,
        db: StateDbSource,
        rollout: RolloutSource,
        archived_only: Option<bool>,
    },
    /// List the thread's pins.
    ListPins { thread_id: ThreadId, db: StateDbSource },
    /// Create a pin.
    CreatePin { thread_id: ThreadId, db: StateDbSource, text: String },
    /// Set the text of a pin.
    UpdatePin { thread_id: ThreadId, db: StateDbSource, pin_id: String, text: String },
    /// Delete a pin.
    DeletePin { thread_id: ThreadId, db: StateDbSource, pin_id: String },
    /// Answer the client.
    Respond(Result<ContextPinResponse, JSONRPCErrorError>),
}

/// What an action holds, as mathematical values.
pub ghost enum ContextPinActionView {
    GetThread { thread_id: u128 },
    FindActiveRollout { thread_id: u128 },
    FindArchivedRollout { thread_id: u128 },
    FlushRollout { thread_id: u128 },
    ReconcileRollout {
        thread_id: u128,
        db: StateDbSource,
        rollout: RolloutSource,
        archived_only: Option<bool>,
    },
    ListPins { thread_id: u128, db: StateDbSource },
    CreatePin { thread_id: u128, db: StateDbSource, text: Seq<char> },
    UpdatePin { thread_id: u128, db: StateDbSource, pin_id: Seq<char>, text: Seq<char> },
    DeletePin { thread_id: u128, db: StateDbSource, pin_id: Seq<char> },
    Respond(Result<ContextPinResponseView, RpcErrorView>),
}

impl View for ContextPinAction {
    type V = ContextPinActionView;

    open spec fn view(&self) -> ContextPinActionView {
        match self {
            ContextPinAction::GetThread { thread_id } => ContextPinActionView::GetThread {
                thread_id: thread_id@,
            },
            ContextPinAction::FindActiveRollout { thread_id } => {
                ContextPinActionView::FindActiveRollout { thread_id: thread_id@ }
            },
            ContextPinAction::FindArchivedRollout { thread_id } => {
                ContextPinActionView::FindArchivedRollout { thread_id: thread_id@ }
            },
            ContextPinAction::FlushRollout { thread_id } => ContextPinActionView::FlushRollout {
                thread_id: thread_id@,
            },
            ContextPinAction::ReconcileRollout { thread_id, db, rollout, archived_only } => {
                ContextPinActionView::ReconcileRollout {
                    thread_id: thread_id@,
                    db: *db,
                    rollout: *rollout,
                    archived_only: *archived_only,
                }
            },
            ContextPinAction::ListPins { thread_id, db } => ContextPinActionView::ListPins {
                thread_id: thread_id@,
                db: *db,
            },
            ContextPinAction::CreatePin { thread_id, db, text } => ContextPinActionView::CreatePin {
                thread_id: thread_id@,
                db: *db,
                text: text@,
            },
            ContextPinAction::UpdatePin { thread_id, db, pin_id, text } => {
                ContextPinActionView::UpdatePin {
                    thread_id: thread_id@,
                    db: *db,
                    pin_id: pin_id@,
                    text: text@,
                }
            },
            ContextPinAction::DeletePin { thread_id, db, pin_id } => ContextPinActionView::DeletePin {
                thread_id: thread_id@,
                db: *db,
                pin_id: pin_id@,
            },
            ContextPinAction::Respond(r) => ContextPinActionView::Respond(
                match r {
                    Ok(resp) => Ok(resp@),
                    Err(e) => Err(e@),
                },
            ),
        }
    }
}

/// Where a request stands, as mathematical values.
pub ghost struct ContextPinMachineView {
    pub thread_id: u128,
    pub op: ContextPinOpView,
    pub phase: ContextPinPhase,
    pub db: Option<StateDbSource>,
}

/// The state of one request while the server works on it.
pub struct ContextPinMachine {
    thread_id: ThreadId,
    op: ContextPinOp,
    phase: ContextPinPhase,
    db: Option<StateDbSource>,
}

impl View for ContextPinMachine {
    type V = ContextPinMachineView;

    closed spec fn view(&self) -> ContextPinMachineView {
        ContextPinMachineView {
            thread_id: self.thread_id@,
            op: self.op@,
            phase: self.phase,
            db: self.db,
        }
    }
}

/// Whether a stored thread's pins include one with id `pin_id`.
pub open spec fn pins_hold_id(pins: Seq<ThreadContextPin>, pin_id: Seq<char>) -> bool {
    exists|i: int| 0 <= i < pins.len() && #[trigger] pins[i].pin_id@ == pin_id
}

/// The protocol forms of stored pins.
pub open spec fn listed_api_views(pins: Seq<ThreadContextPin>) -> Seq<ApiThreadContextPinView> {
    pins.map_values(|p: ThreadContextPin| api_pin_view(p@))
}

/// What every state of a request keeps: the pin ids and texts it carries are
/// acceptable, each phase belongs to the operation, and a state database has been
/// chosen once the thread is known to be materialized.
pub open spec fn machine_inv(m: ContextPinMachineView) -> bool {
    &&& match m.op {
        ContextPinOpView::List { .. } => true,
        ContextPinOpView::Create { text } => pin_text_is_valid(text),
        ContextPinOpView::Update { pin_id, text } => pin_id_is_valid(pin_id) && pin_text_is_valid(
            text,
        ),
        ContextPinOpView::Delete { pin_id } => pin_id_is_valid(pin_id),
    }
    &&& match m.phase {
        ContextPinPhase::ReconcileLookupThread | ContextPinPhase::ReconcileFindActive
        | ContextPinPhase::ReconcileFindArchived | ContextPinPhase::ReconcileFlush
        | ContextPinPhase::Reconciling => m.op is Create && m.db is Some,
        ContextPinPhase::Listing => !(m.op is Delete) && m.db is Some,
        ContextPinPhase::Writing => !(m.op is List) && m.db is Some,
        _ => true,
    }
}

/// Whether `e` is the outcome of the work that state `m` waits for.
pub open spec fn accepts(m: ContextPinMachineView, e: ContextPinEvent) -> bool {
    match m.phase {
        ContextPinPhase::DbLookupThread | ContextPinPhase::ReconcileLookupThread => e is ThreadLookedUp,
        ContextPinPhase::DbFindActive | ContextPinPhase::DbFindArchived
        | ContextPinPhase::ReconcileFindActive | ContextPinPhase::ReconcileFindArchived => e is RolloutLocated,
        ContextPinPhase::ReconcileFlush => e is RolloutFlushed,
        ContextPinPhase::Reconciling => e is RolloutReconciled,
        ContextPinPhase::Listing => e matches ContextPinEvent::PinsListed(r) && (r matches Ok(pins)
            ==> pins_bytes(pins@) <= usize::MAX),
        ContextPinPhase::Writing => match m.op {
            ContextPinOpView::Create { .. } => e is PinCreated,
            ContextPinOpView::Update { .. } => e is PinUpdated,
            ContextPinOpView::Delete { .. } => e is PinDeleted,
            ContextPinOpView::List { .. } => false,
        },
        ContextPinPhase::Done => false,
    }
}

/// Message for a thread that records no rollout.
pub open spec fn ephemeral_message(thread_id: u128) -> Seq<char> {
    "ephemeral thread does not support context pins: "@ + uuid_hyphenated(thread_id)
}

/// Message for a server without a state database of its own.
pub open spec fn db_unavailable_message() -> Seq<char> {
    "sqlite state db unavailable for thread context pins"@
}

/// Message for a failed search among active sessions.
pub open spec fn locate_error_message(thread_id: u128, err: Seq<char>) -> Seq<char> {
    "failed to locate thread id "@ + uuid_hyphenated(thread_id) + ": "@ + err
}

/// Message for a failed search among archived sessions.
pub open spec fn locate_archived_error_message(thread_id: u128, err: Seq<char>) -> Seq<char> {
    "failed to locate archived thread id "@ + uuid_hyphenated(thread_id) + ": "@ + err
}

/// Message for a thread that no session holds.
pub open spec fn not_found_message(thread_id: u128) -> Seq<char> {
    "thread not found: "@ + uuid_hyphenated(thread_id)
}

/// Message for a failed flush.
pub open spec fn flush_error_message(thread_id: u128, err: Seq<char>) -> Seq<char> {
    "failed to flush thread "@ + uuid_hyphenated(thread_id) + ": "@ + err
}

/// Message for a failed listing.
pub open spec fn list_error_message(err: Seq<char>) -> Seq<char> {
    "failed to list thread context pins: "@ + err
}

/// Message for a failed creation.
pub open spec fn create_error_message(err: Seq<char>) -> Seq<char> {
    "failed to create thread context pin: "@ + err
}

/// Message for a failed update.
pub open spec fn update_error_message(err: Seq<char>) -> Seq<char> {
    "failed to update thread context pin: "@ + err
}

/// Message for a failed deletion.
pub open spec fn delete_error_message(err: Seq<char>) -> Seq<char> {
    "failed to delete thread context pin: "@ + err
}

/// Answering with an error ends the request.
pub open spec fn respond_error(m: ContextPinMachineView, e: RpcErrorView) -> (
    ContextPinMachineView,
    ContextPinActionView,
) {
    (
        ContextPinMachineView { phase: ContextPinPhase::Done, ..m },
        ContextPinActionView::Respond(Err(e)),
    )
}

/// Answering with a response ends the request.
pub open spec fn respond_ok(m: ContextPinMachineView, resp: ContextPinResponseView) -> (
    ContextPinMachineView,
    ContextPinActionView,
) {
    (
        ContextPinMachineView { phase: ContextPinPhase::Done, ..m },
        ContextPinActionView::Respond(Ok(resp)),
    )
}

/// Moving to `phase` and asking for `action`.
pub open spec fn goto(
    m: ContextPinMachineView,
    phase: ContextPinPhase,
    action: ContextPinActionView,
) -> (ContextPinMachineView, ContextPinActionView) {
    (ContextPinMachineView { phase, ..m }, action)
}

/// Going on once the state database `db` is chosen: listing the pins for a list or
/// an update, reconciling the rollout before a creation, deleting for a deletion.
pub open spec fn proceed_with_db(m: ContextPinMachineView, db: StateDbSource) -> (
    ContextPinMachineView,
    ContextPinActionView,
) {
    let m2 = ContextPinMachineView { db: Some(db), ..m };
    match m.op {
        ContextPinOpView::List { .. } | ContextPinOpView::Update { .. } => goto(
            m2,
            ContextPinPhase::Listing,
            ContextPinActionView::ListPins { thread_id: m.thread_id, db },
        ),
        ContextPinOpView::Create { .. } => goto(
            m2,
            ContextPinPhase::ReconcileLookupThread,
            ContextPinActionView::GetThread { thread_id: m.thread_id },
        ),
        ContextPinOpView::Delete { pin_id } => goto(
            m2,
            ContextPinPhase::Writing,
            ContextPinActionView::DeletePin { thread_id: m.thread_id, db, pin_id },
        ),
    }
}

/// Going on with the processor's own state database, when it has one.
pub open spec fn proceed_with_processor_db(has_state_db: bool, m: ContextPinMachineView) -> (
    ContextPinMachineView,
    ContextPinActionView,
) {
    if has_state_db {
        proceed_with_db(m, StateDbSource::Processor)
    } else {
        respond_error(m, internal_error_view(db_unavailable_message()))
    }
}

/// Reconciling the rollout from `rollout`.
pub open spec fn reconcile(
    m: ContextPinMachineView,
    rollout: RolloutSource,
    archived_only: Option<bool>,
) -> (ContextPinMachineView, ContextPinActionView) {
    goto(
        m,
        ContextPinPhase::Reconciling,
        ContextPinActionView::ReconcileRollout {
            thread_id: m.thread_id,
            db: m.db->0,
            rollout,
            archived_only,
        },
    )
}

/// What the server does with the pins it listed, for each operation.
pub open spec fn after_listing(m: ContextPinMachineView, pins: Seq<ThreadContextPin>) -> (
    ContextPinMachineView,
    ContextPinActionView,
) {
    match m.op {
        ContextPinOpView::List { cursor, limit } => {
            let total = pins.len() as int;
            if page_request_is_valid(cursor, limit, total) {
                let start = page_start(cursor)->0 as int;
                let end = page_end(start, limit, total);
                respond_ok(
                    m,
                    ContextPinResponseView::List {
                        data: listed_api_views(pins).subrange(start, end),
                        next_cursor: if end < total {
                            Some(decimal(end as nat))
                        } else {
                            None
                        },
                    },
                )
            } else {
                respond_error(m, invalid_request_view(page_error_message(cursor, limit, total)))
            }
        },
        ContextPinOpView::Create { text } => if create_limits_hold(pins, text) {
            goto(
                m,
                ContextPinPhase::Writing,
                ContextPinActionView::CreatePin { thread_id: m.thread_id, db: m.db->0, text },
            )
        } else {
            respond_error(m, invalid_request_view(create_limits_error_message(pins)))
        },
        ContextPinOpView::Update { pin_id, text } => if !pins_hold_id(pins, pin_id) {
            respond_ok(m, ContextPinResponseView::Update { pin: None })
        } else if update_limits_hold(pins, pin_id, text) {
            goto(
                m,
                ContextPinPhase::Writing,
                ContextPinActionView::UpdatePin { thread_id: m.thread_id, db: m.db->0, pin_id, text },
            )
        } else {
            respond_error(m, invalid_request_view(total_bytes_error_message()))
        },
        // a deletion never lists pins
        ContextPinOpView::Delete { .. } => respond_error(m, invalid_request_view(Seq::empty())),
    }
}

/// The next state and action of a request in state `m` on the outcome `e`, for a
/// processor that has (`has_state_db`) or lacks a state database of its own.
pub open spec fn next_step(has_state_db: bool, m: ContextPinMachineView, e: ContextPinEvent) -> (
    ContextPinMachineView,
    ContextPinActionView,
) {
    let id = m.thread_id;
    match m.phase {
        ContextPinPhase::DbLookupThread => match e {
            ContextPinEvent::ThreadLookedUp(Some(t)) => if !t.has_rollout_path {
                respond_error(m, invalid_request_view(ephemeral_message(id)))
            } else if t.has_state_db {
                proceed_with_db(m, StateDbSource::Thread)
            } else {
                proceed_with_processor_db(has_state_db, m)
            },
            _ => goto(
                m,
                ContextPinPhase::DbFindActive,
                ContextPinActionView::FindActiveRollout { thread_id: id },
            ),
        },
        ContextPinPhase::DbFindActive => match e {
            ContextPinEvent::RolloutLocated(Err(err)) => respond_error(
                m,
                internal_error_view(locate_error_message(id, err@)),
            ),
            ContextPinEvent::RolloutLocated(Ok(true)) => proceed_with_processor_db(has_state_db, m),
            _ => goto(
                m,
                ContextPinPhase::DbFindArchived,
                ContextPinActionView::FindArchivedRollout { thread_id: id },
            ),
        },
        ContextPinPhase::DbFindArchived => match e {
            ContextPinEvent::RolloutLocated(Err(err)) => respond_error(
                m,
                internal_error_view(locate_archived_error_message(id, err@)),
            ),
            ContextPinEvent::RolloutLocated(Ok(true)) => proceed_with_processor_db(has_state_db, m),
            _ => respond_error(m, invalid_request_view(not_found_message(id))),
        },
        ContextPinPhase::ReconcileLookupThread => match e {
            ContextPinEvent::ThreadLookedUp(Some(t)) => if !t.has_rollout_path {
                respond_error(m, invalid_request_view(ephemeral_message(id)))
            } else {
                goto(
                    m,
                    ContextPinPhase::ReconcileFlush,
                    ContextPinActionView::FlushRollout { thread_id: id },
                )
            },
            _ => goto(
                m,
                ContextPinPhase::ReconcileFindActive,
                ContextPinActionView::FindActiveRollout { thread_id: id },
            ),
        },
        ContextPinPhase::ReconcileFindActive => match e {
            ContextPinEvent::RolloutLocated(Err(err)) => respond_error(
                m,
                internal_error_view(locate_error_message(id, err@)),
            ),
            ContextPinEvent::RolloutLocated(Ok(true)) => reconcile(
                m,
                RolloutSource::Located,
                Some(false),
            ),
            _ => goto(
                m,
                ContextPinPhase::ReconcileFindArchived,
                ContextPinActionView::FindArchivedRollout { thread_id: id },
            ),
        },
        ContextPinPhase::ReconcileFindArchived => match e {
            ContextPinEvent::RolloutLocated(Err(err)) => respond_error(
                m,
                internal_error_view(locate_archived_error_message(id, err@)),
            ),
            ContextPinEvent::RolloutLocated(Ok(true)) => reconcile(
                m,
                RolloutSource::Located,
                Some(true),
            ),
            _ => respond_error(m, invalid_request_view(not_found_message(id))),
        },
        ContextPinPhase::ReconcileFlush => match e {
            ContextPinEvent::RolloutFlushed(Err(err)) => respond_error(
                m,
                internal_error_view(flush_error_message(id, err@)),
            ),
            _ => reconcile(m, RolloutSource::RunningThread, None),
        },
        ContextPinPhase::Reconciling => goto(
            m,
            ContextPinPhase::Listing,
            ContextPinActionView::ListPins { thread_id: id, db: m.db->0 },
        ),
        ContextPinPhase::Listing => match e {
            ContextPinEvent::PinsListed(Ok(pins)) => after_listing(m, pins@),
            ContextPinEvent::PinsListed(Err(err)) => respond_error(
                m,
                internal_error_view(list_error_message(err@)),
            ),
            // not an accepted event
            _ => respond_error(m, invalid_request_view(Seq::empty())),
        },
        ContextPinPhase::Writing => match e {
            ContextPinEvent::PinCreated(Ok(pin)) => respond_ok(
                m,
                ContextPinResponseView::Create { pin: api_pin_view(pin@) },
            ),
            ContextPinEvent::PinCreated(Err(err)) => respond_error(
                m,
                internal_error_view(create_error_message(err@)),
            ),
            ContextPinEvent::PinUpdated(Ok(pin)) => respond_ok(
                m,
                ContextPinResponseView::Update {
                    pin: match pin {
                        Some(p) => Some(api_pin_view(p@)),
                        None => None,
                    },
                },
            ),
            ContextPinEvent::PinUpdated(Err(err)) => respond_error(
                m,
                internal_error_view(update_error_message(err@)),
            ),
            ContextPinEvent::PinDeleted(Ok(deleted)) => respond_ok(
                m,
                ContextPinResponseView::Delete { deleted },
            ),
            ContextPinEvent::PinDeleted(Err(err)) => respond_error(
                m,
                internal_error_view(delete_error_message(err@)),
            ),
            // not an accepted event
            _ => respond_error(m, invalid_request_view(Seq::empty())),
        },
        // an answered request accepts no event
        ContextPinPhase::Done => (m, ContextPinActionView::GetThread { thread_id: id }),
    }
}

/// The error for a thread id that is not a UUID: uuid's message after a prefix.
pub open spec fn invalid_thread_id_error(thread_id: Seq<char>) -> RpcErrorView {
    invalid_request_view("invalid thread id: "@ + uuid_parse_error_text(thread_id))
}

/// How a request begins: the checks of its pin id and text, in that order, then the
/// parse of its thread id; a request that passes them waits for the lookup of the
/// thread among running threads.
pub open spec fn start_outcome(
    req: ContextPinRequest,
    r: Result<(ContextPinMachineView, ContextPinActionView), RpcErrorView>,
) -> bool {
    let op = request_op(req);
    match request_check_error(op) {
        Some(err) => r == Err::<(ContextPinMachineView, ContextPinActionView), RpcErrorView>(err),
        None => match uuid_parse(request_thread_id(req)) {
            None => r == Err::<(ContextPinMachineView, ContextPinActionView), RpcErrorView>(
                invalid_thread_id_error(request_thread_id(req)),
            ),
            Some(v) => r == Ok::<(ContextPinMachineView, ContextPinActionView), RpcErrorView>(
                (
                    ContextPinMachineView {
                        thread_id: v,
                        op,
                        phase: ContextPinPhase::DbLookupThread,
                        db: None,
                    },
                    ContextPinActionView::GetThread { thread_id: v },
                ),
            ),
        },
    }
}

/// Whether `event` is the outcome of the work that `machine` waits for, as `step`
/// requires.
pub fn accepts_event(machine: &ContextPinMachine, event: &ContextPinEvent) -> (r: bool)
    ensures
        r == accepts(machine@, *event),
{
    match machine.phase {
        ContextPinPhase::DbLookupThread | ContextPinPhase::ReconcileLookupThread => match event {
            ContextPinEvent::ThreadLookedUp(_) => true,
            _ => false,
        },
        ContextPinPhase::DbFindActive | ContextPinPhase::DbFindArchived
        | ContextPinPhase::ReconcileFindActive | ContextPinPhase::ReconcileFindArchived => match event {
            ContextPinEvent::RolloutLocated(_) => true,
            _ => false,
        },
        ContextPinPhase::ReconcileFlush => match event {
            ContextPinEvent::RolloutFlushed(_) => true,
            _ => false,
        },
        ContextPinPhase::Reconciling => match event {
            ContextPinEvent::RolloutReconciled => true,
            _ => false,
        },
        ContextPinPhase::Listing => match event {
            ContextPinEvent::PinsListed(Ok(pins)) => pins_bytes_fit(pins.as_slice()),
            ContextPinEvent::PinsListed(Err(_)) => true,
            _ => false,
        },
        ContextPinPhase::Writing => match (&machine.op, event) {
            (ContextPinOp::Create { .. }, ContextPinEvent::PinCreated(_)) => true,
            (ContextPinOp::Update { .. }, ContextPinEvent::PinUpdated(_)) => true,
            (ContextPinOp::Delete { .. }, ContextPinEvent::PinDeleted(_)) => true,
            _ => false,
        },
        ContextPinPhase::Done => false,
    }
}

impl ContextPinMachine {
    #[verifier::type_invariant]
    spec fn inv(self) -> bool {
        machine_inv(self@)
    }

    /// The phase of the request.
    pub fn phase(&self) -> (p: ContextPinPhase)
        ensures
            p == self@.phase,
    {
        self.phase
    }

    /// The thread that the request is about.
    pub fn thread_id(&self) -> (id: ThreadId)
        ensures
            id@ == self@.thread_id,
    {
        self.thread_id
    }
}

/// Parses the thread id of a request; an unparsable id is an invalid request.
pub fn parse_thread_id_for_context_pin_request(thread_id: &str) -> (r: Result<
    ThreadId,
    JSONRPCErrorError,
>)
    ensures
        r is Ok <==> uuid_parse(thread_id@) is Some,
        r matches Ok(id) ==> uuid_parse(thread_id@) == Some(id@),
        r matches Err(e) ==> e@ == invalid_thread_id_error(thread_id@),
{
    match ThreadId::from_string(thread_id) {
        Ok(id) => Ok(id),
        Err(_) => {
            let detail = uuid_parse_error_message(thread_id);
            let message = concat_str("invalid thread id: ", detail.as_str());
            Err(invalid_request(message))
        },
    }
}

/// `prefix` followed by the hyphenated form of `thread_id`.
fn id_message(prefix: &str, thread_id: ThreadId) -> (s: String)
    ensures
        s@ == prefix@ + uuid_hyphenated(thread_id@),
{
    let id = thread_id.to_string();
    concat_str(prefix, id.as_str())
}

/// `prefix`, the hyphenated form of `thread_id`, a colon and `err`.
fn id_error_message(prefix: &str, thread_id: ThreadId, err: &str) -> (s: String)
    ensures
        s@ == prefix@ + uuid_hyphenated(thread_id@) + ": "@ + err@,
{
    id_message(prefix, thread_id).concat(": ").concat(err)
}

/// The state database that a state has chosen.
fn chosen_db(db: Option<StateDbSource>) -> (d: StateDbSource)
    requires
        db is Some,
    ensures
        d == db->0,
{
    match db {
        Some(d) => d,
        None => StateDbSource::Processor,
    }
}

/// Whether some pin has the id `pin_id`.
fn pins_hold_id_exec(pins: &[ThreadContextPin], pin_id: &str) -> (r: bool)
    ensures
        r == pins_hold_id(pins@, pin_id@),
{
    let n = pins.len();
    for i in 0..n
        invariant
            n == pins@.len(),
            forall|j: int| 0 <= j < i ==> #[trigger] pins@[j].pin_id@ != pin_id@,
    {
        if str_eq(pins[i].pin_id.as_str(), pin_id) {
            return true;
        }
    }
    false
}

/// Ends a request with `result`.
fn finish(
    thread_id: ThreadId,
    op: ContextPinOp,
    db: Option<StateDbSource>,
    result: Result<ContextPinResponse, JSONRPCErrorError>,
    Ghost(m): Ghost<ContextPinMachineView>,
) -> (r: (ContextPinMachine, ContextPinAction))
    requires
        machine_inv(m),
        m.thread_id == thread_id@,
        m.op == op@,
        m.db == db,
    ensures
        r.0@ == (ContextPinMachineView { phase: ContextPinPhase::Done, ..m }),
        r.1@ == ContextPinActionView::Respond(
            match result {
                Ok(resp) => Ok(resp@),
                Err(e) => Err(e@),
            },
        ),
{
    (
        ContextPinMachine { thread_id, op, phase: ContextPinPhase::Done, db },
        ContextPinAction::Respond(result),
    )
}

/// A processor of the pin requests of the app server: it holds the thread manager
/// `M`, the configuration `C` and, when the server keeps one, its own state
/// database `D`, which the server reaches when it works on a request.
pub struct ThreadContextPinsRequestProcessor<M, C, D> {
    thread_manager: Arc<M>,
    config: Arc<C>,
    state_db: Option<D>,
}

impl<M, C, D> ThreadContextPinsRequestProcessor<M, C, D> {
    /// Whether the processor has a state database of its own.
    pub closed spec fn has_state_db(&self) -> bool {
        self.state_db is Some
    }

    /// The thread manager.
    pub closed spec fn thread_manager_spec(&self) -> Arc<M> {
        self.thread_manager
    }

    /// The configuration.
    pub closed spec fn config_spec(&self) -> Arc<C> {
        self.config
    }

    /// The processor's own state database.
    pub closed spec fn state_db_spec(&self) -> Option<D> {
        self.state_db
    }

    /// A processor over the given thread manager, configuration and state database.
    pub fn new(thread_manager: Arc<M>, config: Arc<C>, state_db: Option<D>) -> (p: Self)
        ensures
            p.thread_manager_spec() == thread_manager,
            p.config_spec() == config,
            p.state_db_spec() == state_db,
            p.has_state_db() == state_db is Some,
    {
        ThreadContextPinsRequestProcessor { thread_manager, config, state_db }
    }

    /// The thread manager.
    pub fn thread_manager(&self) -> (m: &Arc<M>)
        ensures
            *m == self.thread_manager_spec(),
    {
        &self.thread_manager
    }

    /// The configuration.
    pub fn config(&self) -> (c: &Arc<C>)
        ensures
            *c == self.config_spec(),
    {
        &self.config
    }

    /// The processor's own state database.
    pub fn state_db(&self) -> (d: &Option<D>)
        ensures
            *d == self.state_db_spec(),
    {
        &self.state_db
    }

    /// Begins a request: checks its pin id and text, parses its thread id, and asks
    /// for the lookup of the thread.
    pub fn start(&self, request: ContextPinRequest) -> (r: Result<
        (ContextPinMachine, ContextPinAction),
        JSONRPCErrorError,
    >)
        ensures
            start_outcome(
                request,
                match r {
                    Ok((m, a)) => Ok((m@, a@)),
                    Err(e) => Err(e@),
                },
            ),
            r matches Ok((m, a)) ==> machine_inv(m@),
    {
        let (thread_id_text, op) = match request {
            ContextPinRequest::List { thread_id, cursor, limit } => (
                thread_id,
                ContextPinOp::List { cursor, limit },
            ),
            ContextPinRequest::Create { thread_id, text } => {
                match validate_context_pin_text(text.as_str()) {
                    Ok(()) => {},
                    Err(e) => {
                        return Err(e);
                    },
                }
                (thread_id, ContextPinOp::Create { text })
            },
            ContextPinRequest::Update { thread_id, pin_id, text } => {
                match validate_context_pin_id(pin_id.as_str()) {
                    Ok(()) => {},
                    Err(e) => {
                        return Err(e);
                    },
                }
                match validate_context_pin_text(text.as_str()) {
                    Ok(()) => {},
                    Err(e) => {
                        return Err(e);
                    },
                }
                (thread_id, ContextPinOp::Update { pin_id, text })
            },
            ContextPinRequest::Delete { thread_id, pin_id } => {
                match validate_context_pin_id(pin_id.as_str()) {
                    Ok(()) => {},
                    Err(e) => {
                        return Err(e);
                    },
                }
                (thread_id, ContextPinOp::Delete { pin_id })
            },
        };
        let thread_id = match parse_thread_id_for_context_pin_request(thread_id_text.as_str()) {
            Ok(id) => id,
            Err(e) => {
                return Err(e);
            },
        };
        let m = ContextPinMachine {
            thread_id,
            op,
            phase: ContextPinPhase::DbLookupThread,
            db: None,
        };
        Ok((m, ContextPinAction::GetThread { thread_id }))
    }
}

/// Moves to `phase` and asks for `action`.
fn goto_exec(
    thread_id: ThreadId,
    op: ContextPinOp,
    db: Option<StateDbSource>,
    phase: ContextPinPhase,
    action: ContextPinAction,
    Ghost(m): Ghost<ContextPinMachineView>,
) -> (r: (ContextPinMachine, ContextPinAction))
    requires
        m.thread_id == thread_id@,
        m.op == op@,
        m.db == db,
        machine_inv(ContextPinMachineView { phase, ..m }),
    ensures
        (r.0@, r.1@) == goto(m, phase, action@),
{
    (ContextPinMachine { thread_id, op, phase, db }, action)
}

/// Goes on once the state database `source` is chosen.
fn proceed_with_db_exec(
    thread_id: ThreadId,
    op: ContextPinOp,
    source: StateDbSource,
    Ghost(m): Ghost<ContextPinMachineView>,
) -> (r: (ContextPinMachine, ContextPinAction))
    requires
        machine_inv(m),
        m.thread_id == thread_id@,
        m.op == op@,
    ensures
        (r.0@, r.1@) == proceed_with_db(m, source),
{
    let ghost m2 = ContextPinMachineView { db: Some(source), ..m };
    match op {
        ContextPinOp::List { cursor, limit } => goto_exec(
            thread_id,
            ContextPinOp::List { cursor, limit },
            Some(source),
            ContextPinPhase::Listing,
            ContextPinAction::ListPins { thread_id, db: source },
            Ghost(m2),
        ),
        ContextPinOp::Update { pin_id, text } => goto_exec(
            thread_id,
            ContextPinOp::Update { pin_id, text },
            Some(source),
            ContextPinPhase::Listing,
            ContextPinAction::ListPins { thread_id, db: source },
            Ghost(m2),
        ),
        ContextPinOp::Create { text } => goto_exec(
            thread_id,
            ContextPinOp::Create { text },
            Some(source),
            ContextPinPhase::ReconcileLookupThread,
            ContextPinAction::GetThread { thread_id },
            Ghost(m2),
        ),
        ContextPinOp::Delete { pin_id } => {
            let action_pin_id = pin_id.clone();
            goto_exec(
                thread_id,
                ContextPinOp::Delete { pin_id },
                Some(source),
                ContextPinPhase::Writing,
                ContextPinAction::DeletePin { thread_id, db: source, pin_id: action_pin_id },
                Ghost(m2),
            )
        },
    }
}

/// Reconciles the rollout from `rollout`.
fn reconcile_exec(
    thread_id: ThreadId,
    op: ContextPinOp,
    db: Option<StateDbSource>,
    rollout: RolloutSource,
    archived_only: Option<bool>,
    Ghost(m): Ghost<ContextPinMachineView>,
) -> (r: (ContextPinMachine, ContextPinAction))
    requires
        machine_inv(m),
        m.op is Create,
        m.db is Some,
        m.thread_id == thread_id@,
        m.op == op@,
        m.db == db,
    ensures
        (r.0@, r.1@) == reconcile(m, rollout, archived_only),
{
    let source = chosen_db(db);
    goto_exec(
        thread_id,
        op,
        db,
        ContextPinPhase::Reconciling,
        ContextPinAction::ReconcileRollout { thread_id, db: source, rollout, archived_only },
        Ghost(m),
    )
}

/// What the server does with the pins it listed.
fn after_listing_exec(
    thread_id: ThreadId,
    op: ContextPinOp,
    db: Option<StateDbSource>,
    pins: Vec<ThreadContextPin>,
    Ghost(m): Ghost<ContextPinMachineView>,
) -> (r: (ContextPinMachine, ContextPinAction))
    requires
        machine_inv(m),
        m.phase == ContextPinPhase::Listing,
        m.thread_id == thread_id@,
        m.op == op@,
        m.db == db,
        pins_bytes(pins@) <= usize::MAX,
    ensures
        (r.0@, r.1@) == after_listing(m, pins@),
{
    match op {
        ContextPinOp::List { cursor, limit } => {
            let ghost all = pins@;
            let apis = api_pins_from_state(pins);
            assert(api_views(apis@) =~= listed_api_views(all));
            let page = match &cursor {
                Some(c) => paginate_context_pins(apis, Some(c.as_str()), limit),
                None => paginate_context_pins(apis, None, limit),
            };
            let op = ContextPinOp::List { cursor, limit };
            match page {
                Ok((data, next_cursor)) => finish(
                    thread_id,
                    op,
                    db,
                    Ok(ContextPinResponse::List { data, next_cursor }),
                    Ghost(m),
                ),
                Err(e) => finish(thread_id, op, db, Err(e), Ghost(m)),
            }
        },
        ContextPinOp::Create { text } => {
            match validate_create_context_pin_limits(pins.as_slice(), text.as_str()) {
                Ok(()) => {
                    let source = chosen_db(db);
                    let action_text = text.clone();
                    goto_exec(
                        thread_id,
                        ContextPinOp::Create { text },
                        db,
                        ContextPinPhase::Writing,
                        ContextPinAction::CreatePin { thread_id, db: source, text: action_text },
                        Ghost(m),
                    )
                },
                Err(e) => finish(thread_id, ContextPinOp::Create { text }, db, Err(e), Ghost(m)),
            }
        },
        ContextPinOp::Update { pin_id, text } => {
            if !pins_hold_id_exec(pins.as_slice(), pin_id.as_str()) {
                return finish(
                    thread_id,
                    ContextPinOp::Update { pin_id, text },
                    db,
                    Ok(ContextPinResponse::Update { pin: None }),
                    Ghost(m),
                );
            }
            match validate_update_context_pin_limits(
                pins.as_slice(),
                pin_id.as_str(),
                text.as_str(),
            ) {
                Ok(()) => {
                    let source = chosen_db(db);
                    let action_pin_id = pin_id.clone();
                    let action_text = text.clone();
                    goto_exec(
                        thread_id,
                        ContextPinOp::Update { pin_id, text },
                        db,
                        ContextPinPhase::Writing,
                        ContextPinAction::UpdatePin {
                            thread_id,
                            db: source,
                            pin_id: action_pin_id,
                            text: action_text,
                        },
                        Ghost(m),
                    )
                },
                Err(e) => finish(
                    thread_id,
                    ContextPinOp::Update { pin_id, text },
                    db,
                    Err(e),
                    Ghost(m),
                ),
            }
        },
        ContextPinOp::Delete { pin_id } => {
            proof {
                assert(false);
            }
            finish(
                thread_id,
                ContextPinOp::Delete { pin_id },
                db,
                Err(invalid_request(String::new())),
                Ghost(m),
            )
        },
    }
}

impl<M, C, D> ThreadContextPinsRequestProcessor<M, C, D> {
    /// Goes on with the processor's own state database, when it has one.
    fn proceed_with_processor_db_exec(
        &self,
        thread_id: ThreadId,
        op: ContextPinOp,
        db: Option<StateDbSource>,
        Ghost(m): Ghost<ContextPinMachineView>,
    ) -> (r: (ContextPinMachine, ContextPinAction))
        requires
            machine_inv(m),
            m.thread_id == thread_id@,
            m.op == op@,
            m.db == db,
        ensures
            (r.0@, r.1@) == proceed_with_processor_db(self.has_state_db(), m),
    {
        if self.state_db.is_some() {
            proceed_with_db_exec(thread_id, op, StateDbSource::Processor, Ghost(m))
        } else {
            finish(
                thread_id,
                op,
                db,
                Err(internal_error(
                    "sqlite state db unavailable for thread context pins".to_owned(),
                )),
                Ghost(m),
            )
        }
    }

    /// Takes the outcome `event` of the work that `machine` waited for, and returns
    /// the next state of the request and the work to do next.
    pub fn step(&self, machine: ContextPinMachine, event: ContextPinEvent) -> (r: (
        ContextPinMachine,
        ContextPinAction,
    ))
        requires
            accepts(machine@, event),
        ensures
            (r.0@, r.1@) == next_step(self.has_state_db(), machine@, event),
            machine_inv(r.0@),
    {
        proof {
            use_type_invariant(&machine);
        }
        let ghost m = machine@;
        let ContextPinMachine { thread_id, op, phase, db } = machine;
        let r = match phase {
            ContextPinPhase::DbLookupThread => match event {
                ContextPinEvent::ThreadLookedUp(Some(t)) => if !t.has_rollout_path {
                    let message = id_message(
                        "ephemeral thread does not support context pins: ",
                        thread_id,
                    );
                    finish(thread_id, op, db, Err(invalid_request(message)), Ghost(m))
                } else if t.has_state_db {
                    proceed_with_db_exec(thread_id, op, StateDbSource::Thread, Ghost(m))
                } else {
                    self.proceed_with_processor_db_exec(thread_id, op, db, Ghost(m))
                },
                _ => goto_exec(
                    thread_id,
                    op,
                    db,
                    ContextPinPhase::DbFindActive,
                    ContextPinAction::FindActiveRollout { thread_id },
                    Ghost(m),
                ),
            },
            ContextPinPhase::DbFindActive => match event {
                ContextPinEvent::RolloutLocated(Err(err)) => {
                    let message = id_error_message(
                        "failed to locate thread id ",
                        thread_id,
                        err.as_str(),
                    );
                    finish(thread_id, op, db, Err(internal_error(message)), Ghost(m))
                },
                ContextPinEvent::RolloutLocated(Ok(true)) => self.proceed_with_processor_db_exec(
                    thread_id,
                    op,
                    db,
                    Ghost(m),
                ),
                _ => goto_exec(
                    thread_id,
                    op,
                    db,
                    ContextPinPhase::DbFindArchived,
                    ContextPinAction::FindArchivedRollout { thread_id },
                    Ghost(m),
                ),
            },
            ContextPinPhase::DbFindArchived => match event {
                ContextPinEvent::RolloutLocated(Err(err)) => {
                    let message = id_error_message(
                        "failed to locate archived thread id ",
                        thread_id,
                        err.as_str(),
                    );
                    finish(thread_id, op, db, Err(internal_error(message)), Ghost(m))
                },
                ContextPinEvent::RolloutLocated(Ok(true)) => self.proceed_with_processor_db_exec(
                    thread_id,
                    op,
                    db,
                    Ghost(m),
                ),
                _ => {
                    let message = id_message("thread not found: ", thread_id);
                    finish(thread_id, op, db, Err(invalid_request(message)), Ghost(m))
                },
            },
            ContextPinPhase::ReconcileLookupThread => match event {
                ContextPinEvent::ThreadLookedUp(Some(t)) => if !t.has_rollout_path {
                    let message = id_message(
                        "ephemeral thread does not support context pins: ",
                        thread_id,
                    );
                    finish(thread_id, op, db, Err(invalid_request(message)), Ghost(m))
                } else {
                    goto_exec(
                        thread_id,
                        op,
                        db,
                        ContextPinPhase::ReconcileFlush,
                        ContextPinAction::FlushRollout { thread_id },
                        Ghost(m),
                    )
                },
                _ => goto_exec(
                    thread_id,
                    op,
                    db,
                    ContextPinPhase::ReconcileFindActive,
                    ContextPinAction::FindActiveRollout { thread_id },
                    Ghost(m),
                ),
            },
            ContextPinPhase::ReconcileFindActive => match event {
                ContextPinEvent::RolloutLocated(Err(err)) => {
                    let message = id_error_message(
                        "failed to locate thread id ",
                        thread_id,
                        err.as_str(),
                    );
                    finish(thread_id, op, db, Err(internal_error(message)), Ghost(m))
                },
                ContextPinEvent::RolloutLocated(Ok(true)) => reconcile_exec(
                    thread_id,
                    op,
                    db,
                    RolloutSource::Located,
                    Some(false),
                    Ghost(m),
                ),
                _ => goto_exec(
                    thread_id,
                    op,
                    db,
                    ContextPinPhase::ReconcileFindArchived,
                    ContextPinAction::FindArchivedRollout { thread_id },
                    Ghost(m),
                ),
            },
            ContextPinPhase::ReconcileFindArchived => match event {
                ContextPinEvent::RolloutLocated(Err(err)) => {
                    let message = id_error_message(
                        "failed to locate archived thread id ",
                        thread_id,
                        err.as_str(),
                    );
                    finish(thread_id, op, db, Err(internal_error(message)), Ghost(m))
                },
                ContextPinEvent::RolloutLocated(Ok(true)) => reconcile_exec(
                    thread_id,
                    op,
                    db,
                    RolloutSource::Located,
                    Some(true),
                    Ghost(m),
                ),
                _ => {
                    let message = id_message("thread not found: ", thread_id);
                    finish(thread_id, op, db, Err(invalid_request(message)), Ghost(m))
                },
            },
            ContextPinPhase::ReconcileFlush => match event {
                ContextPinEvent::RolloutFlushed(Err(err)) => {
                    let message = id_error_message(
                        "failed to flush thread ",
                        thread_id,
                        err.as_str(),
                    );
                    finish(thread_id, op, db, Err(internal_error(message)), Ghost(m))
                },
                _ => reconcile_exec(
                    thread_id,
                    op,
                    db,
                    RolloutSource::RunningThread,
                    None,
                    Ghost(m),
                ),
            },
            ContextPinPhase::Reconciling => {
                let source = chosen_db(db);
                goto_exec(
                    thread_id,
                    op,
                    db,
                    ContextPinPhase::Listing,
                    ContextPinAction::ListPins { thread_id, db: source },
                    Ghost(m),
                )
            },
            ContextPinPhase::Listing => match event {
                ContextPinEvent::PinsListed(Ok(pins)) => after_listing_exec(
                    thread_id,
                    op,
                    db,
                    pins,
                    Ghost(m),
                ),
                ContextPinEvent::PinsListed(Err(err)) => {
                    let message = concat_str("failed to list thread context pins: ", err.as_str());
                    finish(thread_id, op, db, Err(internal_error(message)), Ghost(m))
                },
                _ => finish(thread_id, op, db, Err(invalid_request(String::new())), Ghost(m)),
            },
            ContextPinPhase::Writing => match event {
                ContextPinEvent::PinCreated(Ok(pin)) => {
                    let pin = api_thread_context_pin_from_state(pin);
                    finish(thread_id, op, db, Ok(ContextPinResponse::Create { pin }), Ghost(m))
                },
                ContextPinEvent::PinCreated(Err(err)) => {
                    let message = concat_str("failed to create thread context pin: ", err.as_str());
                    finish(thread_id, op, db, Err(internal_error(message)), Ghost(m))
                },
                ContextPinEvent::PinUpdated(Ok(pin)) => {
                    let pin = match pin {
                        Some(p) => Some(api_thread_context_pin_from_state(p)),
                        None => None,
                    };
                    finish(thread_id, op, db, Ok(ContextPinResponse::Update { pin }), Ghost(m))
                },
                ContextPinEvent::PinUpdated(Err(err)) => {
                    let message = concat_str("failed to update thread context pin: ", err.as_str());
                    finish(thread_id, op, db, Err(internal_error(message)), Ghost(m))
                },
                ContextPinEvent::PinDeleted(Ok(deleted)) => finish(
                    thread_id,
                    op,
                    db,
                    Ok(ContextPinResponse::Delete { deleted }),
                    Ghost(m),
                ),
                ContextPinEvent::PinDeleted(Err(err)) => {
                    let message = concat_str("failed to delete thread context pin: ", err.as_str());
                    finish(thread_id, op, db, Err(internal_error(message)), Ghost(m))
                },
                _ => finish(thread_id, op, db, Err(invalid_request(String::new())), Ghost(m)),
            },
            ContextPinPhase::Done => (
                ContextPinMachine { thread_id, op, phase: ContextPinPhase::Done, db },
                ContextPinAction::GetThread { thread_id },
            ),
        };
        proof {
            use_type_invariant(&r.0);
        }
        r
    }
}

} // verus!
