use vstd::prelude::*;

use crate::error::invalid_request_view;
use crate::api::ApiThreadContextPinView;
use crate::limits::{
    create_limits_hold, pin_id_is_valid, pin_text_is_valid, pins_bytes, pins_bytes_excluding,
    update_limits_hold,
};
use crate::model::ThreadContextPin;
use crate::text::{decimal, is_blank, parse_usize, utf8_len};
use crate::thread_id::{uuid_hyphenated, uuid_parse, uuid_parse_error_text};
use crate::processor::{
    accepts, ephemeral_message, machine_inv, next_step, pins_hold_id, start_outcome,
    ContextPinActionView, ContextPinRequest,
    ContextPinEvent, ContextPinMachineView, ContextPinOpView, ContextPinPhase,
    ContextPinResponseView, RolloutSource, StateDbSource,
};
use crate::error::RpcErrorView;

verus! {

/// How many steps a request in `phase` may still take before it is answered.
pub open spec fn phase_rank(phase: ContextPinPhase) -> nat {
    match phase {
        ContextPinPhase::DbLookupThread => 10,
        ContextPinPhase::DbFindActive => 9,
        ContextPinPhase::DbFindArchived => 8,
        ContextPinPhase::ReconcileLookupThread => 7,
        ContextPinPhase::ReconcileFindActive => 6,
        ContextPinPhase::ReconcileFindArchived => 5,
        ContextPinPhase::ReconcileFlush => 4,
        ContextPinPhase::Reconciling => 3,
        ContextPinPhase::Listing => 2,
        ContextPinPhase::Writing => 1,
        ContextPinPhase::Done => 0,
    }
}

/// Every step keeps what the states of a request keep.
pub proof fn lemma_step_keeps_inv(has_state_db: bool, m: ContextPinMachineView, e: ContextPinEvent)
    requires
        machine_inv(m),
        accepts(m, e),
    ensures
        machine_inv(next_step(has_state_db, m, e).0),
{
}

/// Every step is about the request's own thread and operation: it keeps them, and
/// whatever work it asks for concerns that thread.
pub proof fn lemma_step_stays_on_thread(
    has_state_db: bool,
    m: ContextPinMachineView,
    e: ContextPinEvent,
)
    requires
        machine_inv(m),
        accepts(m, e),
    ensures
        ({
            let (m2, a) = next_step(has_state_db, m, e);
            &&& m2.thread_id == m.thread_id
            &&& m2.op == m.op
            &&& match a {
                ContextPinActionView::GetThread { thread_id } => thread_id == m.thread_id,
                ContextPinActionView::FindActiveRollout { thread_id } => thread_id == m.thread_id,
                ContextPinActionView::FindArchivedRollout { thread_id } => thread_id == m.thread_id,
                ContextPinActionView::FlushRollout { thread_id } => thread_id == m.thread_id,
                ContextPinActionView::ReconcileRollout { thread_id, .. } => thread_id == m.thread_id,
                ContextPinActionView::ListPins { thread_id, .. } => thread_id == m.thread_id,
                ContextPinActionView::CreatePin { thread_id, .. } => thread_id == m.thread_id,
                ContextPinActionView::UpdatePin { thread_id, .. } => thread_id == m.thread_id,
                ContextPinActionView::DeletePin { thread_id, .. } => thread_id == m.thread_id,
                ContextPinActionView::Respond(_) => true,
            }
        }),
{
}

/// Every step brings a request closer to its answer, so that a request is answered
/// after at most ten steps, and a step that answers ends the request.
pub proof fn lemma_step_progresses(has_state_db: bool, m: ContextPinMachineView, e: ContextPinEvent)
    requires
        machine_inv(m),
        accepts(m, e),
    ensures
        phase_rank(next_step(has_state_db, m, e).0.phase) < phase_rank(m.phase),
        next_step(has_state_db, m, e).0.phase == ContextPinPhase::Done <==> next_step(
            has_state_db,
            m,
            e,
        ).1 is Respond,
{
}

/// A pin is created only with an acceptable text, right after the thread's pins were
/// listed, and only when the thread may take one more pin of that text.
pub proof fn lemma_create_respects_limits(
    has_state_db: bool,
    m: ContextPinMachineView,
    e: ContextPinEvent,
)
    requires
        machine_inv(m),
        accepts(m, e),
        next_step(has_state_db, m, e).1 is CreatePin,
    ensures
        ({
            let text = next_step(has_state_db, m, e).1->CreatePin_text;
            &&& pin_text_is_valid(text)
            &&& m.phase == ContextPinPhase::Listing
            &&& m.op == ContextPinOpView::Create { text }
            &&& e matches ContextPinEvent::PinsListed(Ok(pins)) && create_limits_hold(pins@, text)
        }),
{
}

/// A pin is updated only when the listed pins hold it, with an acceptable id and
/// text, and only when the thread's texts stay within the total.
pub proof fn lemma_update_respects_limits(
    has_state_db: bool,
    m: ContextPinMachineView,
    e: ContextPinEvent,
)
    requires
        machine_inv(m),
        accepts(m, e),
        next_step(has_state_db, m, e).1 is UpdatePin,
    ensures
        ({
            let a = next_step(has_state_db, m, e).1;
            let pin_id = a->UpdatePin_pin_id;
            let text = a->UpdatePin_text;
            &&& pin_id_is_valid(pin_id)
            &&& pin_text_is_valid(text)
            &&& m.phase == ContextPinPhase::Listing
            &&& e matches ContextPinEvent::PinsListed(Ok(pins)) && pins_hold_id(pins@, pin_id)
                && update_limits_hold(pins@, pin_id, text)
        }),
{
}

/// An update of a pin that the thread does not hold writes nothing and answers that
/// no pin was updated.
pub proof fn lemma_update_of_missing_pin(
    has_state_db: bool,
    m: ContextPinMachineView,
    pins: Vec<crate::model::ThreadContextPin>,
)
    requires
        machine_inv(m),
        m.phase == ContextPinPhase::Listing,
        m.op matches ContextPinOpView::Update { pin_id, .. } && !pins_hold_id(pins@, pin_id),
    ensures
        next_step(has_state_db, m, ContextPinEvent::PinsListed(Ok(pins))).1
            == ContextPinActionView::Respond(Ok(ContextPinResponseView::Update { pin: None })),
{
}

/// A pin is deleted only under an acceptable id.
pub proof fn lemma_delete_respects_id(
    has_state_db: bool,
    m: ContextPinMachineView,
    e: ContextPinEvent,
)
    requires
        machine_inv(m),
        accepts(m, e),
        next_step(has_state_db, m, e).1 is DeletePin,
    ensures
        pin_id_is_valid(next_step(has_state_db, m, e).1->DeletePin_pin_id),
{
}

/// A creation lists the thread's pins only once the rollout has been reconciled into
/// the state database.
pub proof fn lemma_create_lists_after_reconcile(
    has_state_db: bool,
    m: ContextPinMachineView,
    e: ContextPinEvent,
)
    requires
        machine_inv(m),
        accepts(m, e),
        m.op is Create,
        next_step(has_state_db, m, e).0.phase == ContextPinPhase::Listing,
    ensures
        m.phase == ContextPinPhase::Reconciling,
{
}

/// A running thread that records no rollout is refused as an invalid request.
pub proof fn lemma_ephemeral_thread_refused(
    has_state_db: bool,
    m: ContextPinMachineView,
    t: crate::processor::RunningThread,
)
    requires
        machine_inv(m),
        m.phase == ContextPinPhase::DbLookupThread || m.phase
            == ContextPinPhase::ReconcileLookupThread,
        !t.has_rollout_path,
    ensures
        next_step(has_state_db, m, ContextPinEvent::ThreadLookedUp(Some(t))).1
            == ContextPinActionView::Respond(Err(invalid_request_view(ephemeral_message(m.thread_id)))),
{
}

/// A rollout is reconciled as archived exactly when it was found among archived
/// sessions, so that pinning a text to an archived thread keeps it archived; the
/// rollout of a running thread is reconciled without saying either way.
pub proof fn lemma_reconcile_keeps_archived_state(
    has_state_db: bool,
    m: ContextPinMachineView,
    e: ContextPinEvent,
)
    requires
        machine_inv(m),
        accepts(m, e),
        next_step(has_state_db, m, e).1 is ReconcileRollout,
    ensures
        ({
            let a = next_step(has_state_db, m, e).1;
            let archived_only = a->ReconcileRollout_archived_only;
            let rollout = a->ReconcileRollout_rollout;
            &&& m.phase == ContextPinPhase::ReconcileFindArchived ==> archived_only == Some(true)
                && rollout == RolloutSource::Located
            &&& m.phase == ContextPinPhase::ReconcileFindActive ==> archived_only == Some(false)
                && rollout == RolloutSource::Located
            &&& m.phase == ContextPinPhase::ReconcileFlush ==> archived_only is None && rollout
                == RolloutSource::RunningThread
            &&& m.phase == ContextPinPhase::ReconcileFindArchived || m.phase
                == ContextPinPhase::ReconcileFindActive || m.phase == ContextPinPhase::ReconcileFlush
            &&& a->ReconcileRollout_db == m.db->0
        }),
{
}

/// Whether `a` is the protocol form of the stored pin `p`: the thread id in its
/// hyphenated form, the same id and text, and the times in whole seconds.
pub open spec fn is_protocol_form(a: ApiThreadContextPinView, p: ThreadContextPin) -> bool {
    &&& a.thread_id == uuid_hyphenated(p.thread_id@)
    &&& a.pin_id == p.pin_id@
    &&& a.text == p.text@
    &&& a.created_at == p.created_at@ / 1000
    &&& a.updated_at == p.updated_at@ / 1000
}

/// A deletion answers the flag that the store reported: `true` when it deleted a
/// row, `false` when it deleted none.
pub proof fn lemma_delete_answers_store_flag(
    has_state_db: bool,
    m: ContextPinMachineView,
    deleted: bool,
)
    requires
        machine_inv(m),
        m.phase == ContextPinPhase::Writing,
        m.op is Delete,
    ensures
        next_step(has_state_db, m, ContextPinEvent::PinDeleted(Ok(deleted))).1
            == ContextPinActionView::Respond(Ok(ContextPinResponseView::Delete { deleted })),
        next_step(has_state_db, m, ContextPinEvent::PinDeleted(Ok(deleted))).0.phase
            == ContextPinPhase::Done,
{
}

/// A creation answers the protocol form of the pin that the store created, and an
/// update the protocol form of the updated pin, or no pin when the store updated
/// none.
pub proof fn lemma_writes_answer_store_pins(
    has_state_db: bool,
    m: ContextPinMachineView,
    created: ThreadContextPin,
    updated: Option<ThreadContextPin>,
)
    requires
        machine_inv(m),
        m.phase == ContextPinPhase::Writing,
    ensures
        m.op is Create ==> (next_step(
            has_state_db,
            m,
            ContextPinEvent::PinCreated(Ok(created)),
        ).1 matches ContextPinActionView::Respond(Ok(ContextPinResponseView::Create { pin }))
            && is_protocol_form(pin, created)),
        m.op is Update ==> (next_step(
            has_state_db,
            m,
            ContextPinEvent::PinUpdated(Ok(updated)),
        ).1 matches ContextPinActionView::Respond(Ok(ContextPinResponseView::Update { pin }))
            && match (pin, updated) {
            (None, None) => true,
            (Some(a), Some(p)) => is_protocol_form(a, p),
            _ => false,
        }),
{
}

/// A listing answers the page that the client asked for: from the pin that the
/// cursor counts (the first without a cursor), as many pins as the limit asks,
/// never more than 16 (16 without a limit), with a next cursor counting the first
/// pin after the page while pins remain; an unparsable cursor, a cursor beyond the
/// pins, or a zero limit are refused, in that order.
pub proof fn lemma_list_answers_the_requested_page(
    has_state_db: bool,
    m: ContextPinMachineView,
    pins: Vec<ThreadContextPin>,
)
    requires
        machine_inv(m),
        m.phase == ContextPinPhase::Listing,
        m.op is List,
        pins_bytes(pins@) <= usize::MAX,
    ensures
        ({
            let cursor = m.op->List_cursor;
            let limit = m.op->List_limit;
            let n = pins@.len() as int;
            let a = next_step(has_state_db, m, ContextPinEvent::PinsListed(Ok(pins))).1;
            let start = match cursor {
                None => Some(0usize),
                Some(c) => parse_usize(c),
            };
            match start {
                None => a == ContextPinActionView::Respond(
                    Err(invalid_request_view("invalid cursor: "@ + cursor->0)),
                ),
                Some(s) => if s > n {
                    a == ContextPinActionView::Respond(
                        Err(
                            invalid_request_view(
                                "cursor "@ + decimal(s as nat) + " exceeds total context pins "@
                                    + decimal(n as nat),
                            ),
                        ),
                    )
                } else if limit == Some(0u32) {
                    a == ContextPinActionView::Respond(
                        Err(invalid_request_view("limit must be greater than 0"@)),
                    )
                } else {
                    let l: int = match limit {
                        Some(x) => if x < 16 {
                            x as int
                        } else {
                            16
                        },
                        None => 16,
                    };
                    let end = if s + l < n {
                        s + l
                    } else {
                        n
                    };
                    a matches ContextPinActionView::Respond(
                        Ok(ContextPinResponseView::List { data, next_cursor }),
                    ) && data.len() == end - s && (forall|i: int|
                        0 <= i < data.len() ==> is_protocol_form(
                            #[trigger] data[i],
                            pins@[s + i],
                        )) && next_cursor == (if end < n {
                        Some(decimal(end as nat))
                    } else {
                        None
                    })
                },
            }
        }),
{
}

/// After listing, a creation writes the pin exactly when the thread holds fewer
/// than 16 pins and its texts with the new text, counted once, are at most 64 KiB;
/// otherwise it is refused, for the count first.
pub proof fn lemma_create_decision(
    has_state_db: bool,
    m: ContextPinMachineView,
    pins: Vec<ThreadContextPin>,
)
    requires
        machine_inv(m),
        m.phase == ContextPinPhase::Listing,
        m.op is Create,
        pins_bytes(pins@) <= usize::MAX,
    ensures
        ({
            let text = m.op->Create_text;
            let a = next_step(has_state_db, m, ContextPinEvent::PinsListed(Ok(pins))).1;
            &&& pins@.len() < 16 && pins_bytes(pins@) + utf8_len(text) <= 65536 ==> a
                == ContextPinActionView::CreatePin { thread_id: m.thread_id, db: m.db->0, text }
            &&& pins@.len() >= 16 ==> a == ContextPinActionView::Respond(
                Err(invalid_request_view("threads can have at most 16 context pins"@)),
            )
            &&& pins@.len() < 16 && pins_bytes(pins@) + utf8_len(text) > 65536 ==> a
                == ContextPinActionView::Respond(
                Err(invalid_request_view("thread context pins must total at most 65536 bytes"@)),
            )
        }),
{
}

/// After listing, an update answers no pin when the thread does not hold the pin;
/// otherwise it writes exactly when the texts of the other pins and the new text are
/// at most 64 KiB, whatever the number of pins, and is refused otherwise.
pub proof fn lemma_update_decision(
    has_state_db: bool,
    m: ContextPinMachineView,
    pins: Vec<ThreadContextPin>,
)
    requires
        machine_inv(m),
        m.phase == ContextPinPhase::Listing,
        m.op is Update,
        pins_bytes(pins@) <= usize::MAX,
    ensures
        ({
            let pin_id = m.op->Update_pin_id;
            let text = m.op->Update_text;
            let held = exists|i: int| 0 <= i < pins@.len() && #[trigger] pins@[i].pin_id@ == pin_id;
            let a = next_step(has_state_db, m, ContextPinEvent::PinsListed(Ok(pins))).1;
            &&& !held ==> a == ContextPinActionView::Respond(
                Ok(ContextPinResponseView::Update { pin: None }),
            )
            &&& held && pins_bytes_excluding(pins@, pin_id) + utf8_len(text) <= 65536 ==> a
                == ContextPinActionView::UpdatePin {
                thread_id: m.thread_id,
                db: m.db->0,
                pin_id,
                text,
            }
            &&& held && pins_bytes_excluding(pins@, pin_id) + utf8_len(text) > 65536 ==> a
                == ContextPinActionView::Respond(
                Err(invalid_request_view("thread context pins must total at most 65536 bytes"@)),
            )
        }),
{
}

/// Where a request finds the state database of its thread. A running thread that
/// records a rollout brings its own database when it has one, and the server's is
/// used otherwise; a thread that is not running is searched among active sessions,
/// then among archived ones, and the server's database is used once its rollout is
/// found. With the database chosen, a listing or an update lists the pins, a
/// creation goes on to reconcile the rollout, and a deletion deletes. A server
/// without a database of its own fails the request as an internal error, a running
/// thread without a rollout and a thread found nowhere are refused, and a failed
/// search fails with its message.
pub proof fn lemma_state_db_lookup(has_state_db: bool, m: ContextPinMachineView, e: ContextPinEvent)
    requires
        machine_inv(m),
        accepts(m, e),
    ensures
        ({
            let (m2, a) = next_step(has_state_db, m, e);
            let id = m.thread_id;
            let uses = |db: StateDbSource|
                m2.db == Some(db) && match m.op {
                    ContextPinOpView::List { .. } | ContextPinOpView::Update { .. } => m2.phase
                        == ContextPinPhase::Listing && a == ContextPinActionView::ListPins {
                        thread_id: id,
                        db,
                    },
                    ContextPinOpView::Create { .. } => m2.phase
                        == ContextPinPhase::ReconcileLookupThread && a
                        == ContextPinActionView::GetThread { thread_id: id },
                    ContextPinOpView::Delete { pin_id } => m2.phase == ContextPinPhase::Writing
                        && a == ContextPinActionView::DeletePin { thread_id: id, db, pin_id },
                };
            let server_db = if has_state_db {
                uses(StateDbSource::Processor)
            } else {
                a == ContextPinActionView::Respond(
                    Err(
                        RpcErrorView {
                            code: -32603i64,
                            message: "sqlite state db unavailable for thread context pins"@,
                        },
                    ),
                )
            };
            &&& m.phase == ContextPinPhase::DbLookupThread ==> match e {
                ContextPinEvent::ThreadLookedUp(Some(t)) => if !t.has_rollout_path {
                    a == ContextPinActionView::Respond(
                        Err(
                            RpcErrorView {
                                code: -32600i64,
                                message: "ephemeral thread does not support context pins: "@
                                    + uuid_hyphenated(id),
                            },
                        ),
                    )
                } else if t.has_state_db {
                    uses(StateDbSource::Thread)
                } else {
                    server_db
                },
                _ => m2.phase == ContextPinPhase::DbFindActive && a
                    == ContextPinActionView::FindActiveRollout { thread_id: id },
            }
            &&& m.phase == ContextPinPhase::DbFindActive ==> match e {
                ContextPinEvent::RolloutLocated(Ok(found)) => if found {
                    server_db
                } else {
                    m2.phase == ContextPinPhase::DbFindArchived && a
                        == ContextPinActionView::FindArchivedRollout { thread_id: id }
                },
                ContextPinEvent::RolloutLocated(Err(err)) => a == ContextPinActionView::Respond(
                    Err(
                        RpcErrorView {
                            code: -32603i64,
                            message: "failed to locate thread id "@ + uuid_hyphenated(id) + ": "@
                                + err@,
                        },
                    ),
                ),
                _ => true,
            }
            &&& m.phase == ContextPinPhase::DbFindArchived ==> match e {
                ContextPinEvent::RolloutLocated(Ok(found)) => if found {
                    server_db
                } else {
                    a == ContextPinActionView::Respond(
                        Err(
                            RpcErrorView {
                                code: -32600i64,
                                message: "thread not found: "@ + uuid_hyphenated(id),
                            },
                        ),
                    )
                },
                ContextPinEvent::RolloutLocated(Err(err)) => a == ContextPinActionView::Respond(
                    Err(
                        RpcErrorView {
                            code: -32603i64,
                            message: "failed to locate archived thread id "@ + uuid_hyphenated(id)
                                + ": "@ + err@,
                        },
                    ),
                ),
                _ => true,
            }
        }),
{
}

/// How a creation brings the thread's rollout into the state database before it
/// lists the pins: a running thread's rollout is flushed and then reconciled without
/// saying whether it is archived; otherwise the rollout is searched among active
/// sessions, then archived ones, and reconciled as found there. Once reconciled,
/// the pins are listed from the chosen database. A running thread without a
/// rollout and a thread found nowhere are refused; a failed search or flush fails
/// with its message.
pub proof fn lemma_reconcile_path(has_state_db: bool, m: ContextPinMachineView, e: ContextPinEvent)
    requires
        machine_inv(m),
        accepts(m, e),
    ensures
        ({
            let (m2, a) = next_step(has_state_db, m, e);
            let id = m.thread_id;
            let db = m.db->0;
            let reconciles = |archived_only: Option<bool>, rollout: RolloutSource|
                m2.phase == ContextPinPhase::Reconciling && m2.db == m.db && a
                    == ContextPinActionView::ReconcileRollout {
                    thread_id: id,
                    db,
                    rollout,
                    archived_only,
                };
            &&& m.phase == ContextPinPhase::ReconcileLookupThread ==> match e {
                ContextPinEvent::ThreadLookedUp(Some(t)) => if t.has_rollout_path {
                    m2.phase == ContextPinPhase::ReconcileFlush && a
                        == ContextPinActionView::FlushRollout { thread_id: id }
                } else {
                    a == ContextPinActionView::Respond(
                        Err(
                            RpcErrorView {
                                code: -32600i64,
                                message: "ephemeral thread does not support context pins: "@
                                    + uuid_hyphenated(id),
                            },
                        ),
                    )
                },
                _ => m2.phase == ContextPinPhase::ReconcileFindActive && a
                    == ContextPinActionView::FindActiveRollout { thread_id: id },
            }
            &&& m.phase == ContextPinPhase::ReconcileFlush ==> match e {
                ContextPinEvent::RolloutFlushed(Err(err)) => a == ContextPinActionView::Respond(
                    Err(
                        RpcErrorView {
                            code: -32603i64,
                            message: "failed to flush thread "@ + uuid_hyphenated(id) + ": "@
                                + err@,
                        },
                    ),
                ),
                _ => reconciles(None, RolloutSource::RunningThread),
            }
            &&& m.phase == ContextPinPhase::ReconcileFindActive ==> match e {
                ContextPinEvent::RolloutLocated(Ok(found)) => if found {
                    reconciles(Some(false), RolloutSource::Located)
                } else {
                    m2.phase == ContextPinPhase::ReconcileFindArchived && a
                        == ContextPinActionView::FindArchivedRollout { thread_id: id }
                },
                ContextPinEvent::RolloutLocated(Err(err)) => a == ContextPinActionView::Respond(
                    Err(
                        RpcErrorView {
                            code: -32603i64,
                            message: "failed to locate thread id "@ + uuid_hyphenated(id) + ": "@
                                + err@,
                        },
                    ),
                ),
                _ => true,
            }
            &&& m.phase == ContextPinPhase::ReconcileFindArchived ==> match e {
                ContextPinEvent::RolloutLocated(Ok(found)) => if found {
                    reconciles(Some(true), RolloutSource::Located)
                } else {
                    a == ContextPinActionView::Respond(
                        Err(
                            RpcErrorView {
                                code: -32600i64,
                                message: "thread not found: "@ + uuid_hyphenated(id),
                            },
                        ),
                    )
                },
                ContextPinEvent::RolloutLocated(Err(err)) => a == ContextPinActionView::Respond(
                    Err(
                        RpcErrorView {
                            code: -32603i64,
                            message: "failed to locate archived thread id "@ + uuid_hyphenated(id)
                                + ": "@ + err@,
                        },
                    ),
                ),
                _ => true,
            }
            &&& m.phase == ContextPinPhase::Reconciling ==> m2.phase == ContextPinPhase::Listing
                && m2.db == m.db && a == ContextPinActionView::ListPins { thread_id: id, db }
        }),
{
}

/// A failure of the state database fails the request as an internal error whose
/// message names what failed, followed by the store's own message.
pub proof fn lemma_store_failures_answered(
    has_state_db: bool,
    m: ContextPinMachineView,
    err: String,
)
    requires
        machine_inv(m),
    ensures
        m.phase == ContextPinPhase::Listing ==> next_step(
            has_state_db,
            m,
            ContextPinEvent::PinsListed(Err(err)),
        ).1 == ContextPinActionView::Respond(
            Err(
                RpcErrorView {
                    code: -32603i64,
                    message: "failed to list thread context pins: "@ + err@,
                },
            ),
        ),
        m.phase == ContextPinPhase::Writing && m.op is Create ==> next_step(
            has_state_db,
            m,
            ContextPinEvent::PinCreated(Err(err)),
        ).1 == ContextPinActionView::Respond(
            Err(
                RpcErrorView {
                    code: -32603i64,
                    message: "failed to create thread context pin: "@ + err@,
                },
            ),
        ),
        m.phase == ContextPinPhase::Writing && m.op is Update ==> next_step(
            has_state_db,
            m,
            ContextPinEvent::PinUpdated(Err(err)),
        ).1 == ContextPinActionView::Respond(
            Err(
                RpcErrorView {
                    code: -32603i64,
                    message: "failed to update thread context pin: "@ + err@,
                },
            ),
        ),
        m.phase == ContextPinPhase::Writing && m.op is Delete ==> next_step(
            has_state_db,
            m,
            ContextPinEvent::PinDeleted(Err(err)),
        ).1 == ContextPinActionView::Respond(
            Err(
                RpcErrorView {
                    code: -32603i64,
                    message: "failed to delete thread context pin: "@ + err@,
                },
            ),
        ),
{
}

/// How a request begins. A pin id is checked before a text, and both before the
/// thread id: a blank pin id, a blank text, or a text of more than 16384 bytes is
/// refused with its own message; then a thread id that is not a UUID is refused
/// with uuid's message; a request that passes waits for the lookup of its thread
/// among the running threads, with no state database chosen yet.
pub proof fn lemma_start_checks_then_looks_up(
    req: ContextPinRequest,
    r: Result<(ContextPinMachineView, ContextPinActionView), RpcErrorView>,
)
    requires
        start_outcome(req, r),
    ensures
        ({
            let refused = |message: Seq<char>|
                r == Err::<(ContextPinMachineView, ContextPinActionView), RpcErrorView>(
                    RpcErrorView { code: -32600i64, message },
                );
            let text_message = |text: Seq<char>|
                if is_blank(text) {
                    "context pin text must not be empty"@
                } else {
                    "context pin text must be at most 16384 bytes"@
                };
            let (tid, op, checked) = match req {
                ContextPinRequest::List { thread_id, cursor, limit } => (
                    thread_id@,
                    ContextPinOpView::List {
                        cursor: match cursor {
                            Some(c) => Some(c@),
                            None => None,
                        },
                        limit,
                    },
                    true,
                ),
                ContextPinRequest::Create { thread_id, text } => (
                    thread_id@,
                    ContextPinOpView::Create { text: text@ },
                    pin_text_is_valid(text@),
                ),
                ContextPinRequest::Update { thread_id, pin_id, text } => (
                    thread_id@,
                    ContextPinOpView::Update { pin_id: pin_id@, text: text@ },
                    pin_id_is_valid(pin_id@) && pin_text_is_valid(text@),
                ),
                ContextPinRequest::Delete { thread_id, pin_id } => (
                    thread_id@,
                    ContextPinOpView::Delete { pin_id: pin_id@ },
                    pin_id_is_valid(pin_id@),
                ),
            };
            &&& match req {
                ContextPinRequest::Create { text, .. } => !pin_text_is_valid(text@) ==> refused(
                    text_message(text@),
                ),
                ContextPinRequest::Update { pin_id, text, .. } => (!pin_id_is_valid(pin_id@)
                    ==> refused("pinId must not be empty"@)) && (pin_id_is_valid(pin_id@)
                    && !pin_text_is_valid(text@) ==> refused(text_message(text@))),
                ContextPinRequest::Delete { pin_id, .. } => !pin_id_is_valid(pin_id@) ==> refused(
                    "pinId must not be empty"@,
                ),
                ContextPinRequest::List { .. } => true,
            }
            &&& checked && uuid_parse(tid) is None ==> refused(
                "invalid thread id: "@ + uuid_parse_error_text(tid),
            )
            &&& checked && uuid_parse(tid) is Some ==> r == Ok::<
                (ContextPinMachineView, ContextPinActionView),
                RpcErrorView,
            >(
                (
                    ContextPinMachineView {
                        thread_id: uuid_parse(tid)->0,
                        op,
                        phase: ContextPinPhase::DbLookupThread,
                        db: None,
                    },
                    ContextPinActionView::GetThread { thread_id: uuid_parse(tid)->0 },
                ),
            )
        }),
{
}

} // verus!
