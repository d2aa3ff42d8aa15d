use std::sync::Arc;

use thread_context_pins::error::INTERNAL_ERROR_CODE;
use thread_context_pins::error::INVALID_REQUEST_ERROR_CODE;
use thread_context_pins::model::ThreadContextPin;
use thread_context_pins::processor::accepts_event;
use thread_context_pins::processor::parse_thread_id_for_context_pin_request;
use thread_context_pins::processor::ContextPinAction;
use thread_context_pins::processor::ContextPinEvent;
use thread_context_pins::processor::ContextPinMachine;
use thread_context_pins::processor::ContextPinPhase;
use thread_context_pins::processor::ContextPinRequest;
use thread_context_pins::processor::ContextPinResponse;
use thread_context_pins::processor::RolloutSource;
use thread_context_pins::processor::RunningThread;
use thread_context_pins::processor::StateDbSource;
use thread_context_pins::processor::ThreadContextPinsRequestProcessor;
use thread_context_pins::thread_id::ThreadId;
use thread_context_pins::time::UtcDateTime;

const THREAD: &str = "00000000-0000-0000-0000-000000000123";

type Processor = ThreadContextPinsRequestProcessor<(), (), ()>;

fn processor(with_db: bool) -> Processor {
    ThreadContextPinsRequestProcessor::new(Arc::new(()), Arc::new(()), with_db.then_some(()))
}

fn pin(pin_id: &str, text: &str) -> ThreadContextPin {
    let at = UtcDateTime::from_timestamp_millis(5_000).expect("valid time");
    ThreadContextPin {
        thread_id: ThreadId::from_string(THREAD).expect("valid thread id"),
        pin_id: pin_id.to_string(),
        text: text.to_string(),
        created_at: at,
        updated_at: at,
    }
}

fn running(has_state_db: bool) -> ContextPinEvent {
    ContextPinEvent::ThreadLookedUp(Some(RunningThread {
        has_rollout_path: true,
        has_state_db,
    }))
}

fn step(
    p: &Processor,
    m: ContextPinMachine,
    e: ContextPinEvent,
) -> (ContextPinMachine, ContextPinAction) {
    assert!(accepts_event(&m, &e));
    p.step(m, e)
}

fn error_of(action: ContextPinAction) -> (i64, String) {
    match action {
        ContextPinAction::Respond(Err(e)) => (e.code, e.message),
        _ => panic!("expected an error response"),
    }
}

fn response_of(action: ContextPinAction) -> ContextPinResponse {
    match action {
        ContextPinAction::Respond(Ok(r)) => r,
        _ => panic!("expected a response"),
    }
}

#[test]
fn create_on_a_running_thread_reconciles_then_creates() {
    let p = processor(false);
    let (m, a) = p
        .start(ContextPinRequest::Create {
            thread_id: THREAD.to_string(),
            text: "Remember issue #26889".to_string(),
        })
        .expect("valid request");
    assert!(matches!(a, ContextPinAction::GetThread { .. }));
    let (m, a) = step(&p, m, running(true));
    assert_eq!(m.phase(), ContextPinPhase::ReconcileLookupThread);
    assert!(matches!(a, ContextPinAction::GetThread { .. }));
    let (m, a) = step(&p, m, running(true));
    assert!(matches!(a, ContextPinAction::FlushRollout { .. }));
    let (m, a) = step(&p, m, ContextPinEvent::RolloutFlushed(Ok(())));
    assert!(matches!(
        a,
        ContextPinAction::ReconcileRollout {
            db: StateDbSource::Thread,
            rollout: RolloutSource::RunningThread,
            archived_only: None,
            ..
        }
    ));
    let (m, a) = step(&p, m, ContextPinEvent::RolloutReconciled);
    assert!(matches!(a, ContextPinAction::ListPins { db: StateDbSource::Thread, .. }));
    let (m, a) = step(&p, m, ContextPinEvent::PinsListed(Ok(Vec::new())));
    match &a {
        ContextPinAction::CreatePin { thread_id, text, db } => {
            assert_eq!(thread_id.to_string(), THREAD);
            assert_eq!(text, "Remember issue #26889");
            assert_eq!(*db, StateDbSource::Thread);
        }
        _ => panic!("expected a creation"),
    }
    let (m, a) = step(
        &p,
        m,
        ContextPinEvent::PinCreated(Ok(pin("pin-1", "Remember issue #26889"))),
    );
    assert_eq!(m.phase(), ContextPinPhase::Done);
    match response_of(a) {
        ContextPinResponse::Create { pin } => {
            assert_eq!(pin.thread_id, THREAD);
            assert_eq!(pin.pin_id, "pin-1");
            assert_eq!(pin.text, "Remember issue #26889");
            assert_eq!(pin.created_at, 5);
        }
        _ => panic!("expected a created pin"),
    }
}

#[test]
fn create_on_an_archived_thread_reconciles_archived_rollout() {
    let p = processor(true);
    let (m, _) = p
        .start(ContextPinRequest::Create {
            thread_id: THREAD.to_string(),
            text: "After archive".to_string(),
        })
        .expect("valid request");
    let (m, a) = step(&p, m, ContextPinEvent::ThreadLookedUp(None));
    assert!(matches!(a, ContextPinAction::FindActiveRollout { .. }));
    let (m, a) = step(&p, m, ContextPinEvent::RolloutLocated(Ok(false)));
    assert!(matches!(a, ContextPinAction::FindArchivedRollout { .. }));
    let (m, a) = step(&p, m, ContextPinEvent::RolloutLocated(Ok(true)));
    assert!(matches!(a, ContextPinAction::GetThread { .. }));
    let (m, _) = step(&p, m, ContextPinEvent::ThreadLookedUp(None));
    let (m, _) = step(&p, m, ContextPinEvent::RolloutLocated(Ok(false)));
    let (m, a) = step(&p, m, ContextPinEvent::RolloutLocated(Ok(true)));
    assert!(matches!(
        a,
        ContextPinAction::ReconcileRollout {
            db: StateDbSource::Processor,
            rollout: RolloutSource::Located,
            archived_only: Some(true),
            ..
        }
    ));
    let (m, _) = step(&p, m, ContextPinEvent::RolloutReconciled);
    let (_, a) = step(
        &p,
        m,
        ContextPinEvent::PinsListed(Ok(vec![pin("pin-1", "Before archive")])),
    );
    assert!(matches!(a, ContextPinAction::CreatePin { db: StateDbSource::Processor, .. }));
}

#[test]
fn create_beyond_the_pin_count_is_refused() {
    let p = processor(true);
    let (m, _) = p
        .start(ContextPinRequest::Create {
            thread_id: THREAD.to_string(),
            text: "one more".to_string(),
        })
        .expect("valid request");
    let (m, _) = step(&p, m, running(true));
    let (m, _) = step(&p, m, running(true));
    let (m, _) = step(&p, m, ContextPinEvent::RolloutFlushed(Ok(())));
    let (m, _) = step(&p, m, ContextPinEvent::RolloutReconciled);
    let pins: Vec<_> = (0..16).map(|i| pin(&format!("pin-{i}"), "a")).collect();
    let (m, a) = step(&p, m, ContextPinEvent::PinsListed(Ok(pins)));
    assert_eq!(m.phase(), ContextPinPhase::Done);
    assert_eq!(
        error_of(a),
        (
            INVALID_REQUEST_ERROR_CODE,
            "threads can have at most 16 context pins".to_string()
        )
    );
}

#[test]
fn ephemeral_threads_are_refused() {
    let p = processor(true);
    let (m, _) = p
        .start(ContextPinRequest::List {
            thread_id: THREAD.to_string(),
            cursor: None,
            limit: None,
        })
        .expect("valid request");
    let (_, a) = step(
        &p,
        m,
        ContextPinEvent::ThreadLookedUp(Some(RunningThread {
            has_rollout_path: false,
            has_state_db: true,
        })),
    );
    assert_eq!(
        error_of(a),
        (
            INVALID_REQUEST_ERROR_CODE,
            format!("ephemeral thread does not support context pins: {THREAD}")
        )
    );
}

#[test]
fn unknown_threads_are_not_found() {
    let p = processor(true);
    let (m, _) = p
        .start(ContextPinRequest::Delete {
            thread_id: THREAD.to_string(),
            pin_id: "pin-1".to_string(),
        })
        .expect("valid request");
    let (m, _) = step(&p, m, ContextPinEvent::ThreadLookedUp(None));
    let (m, _) = step(&p, m, ContextPinEvent::RolloutLocated(Ok(false)));
    let (_, a) = step(&p, m, ContextPinEvent::RolloutLocated(Ok(false)));
    assert_eq!(
        error_of(a),
        (INVALID_REQUEST_ERROR_CODE, format!("thread not found: {THREAD}"))
    );
}

#[test]
fn search_failures_are_internal_errors() {
    let p = processor(true);
    let (m, _) = p
        .start(ContextPinRequest::Delete {
            thread_id: THREAD.to_string(),
            pin_id: "pin-1".to_string(),
        })
        .expect("valid request");
    let (m, _) = step(&p, m, ContextPinEvent::ThreadLookedUp(None));
    let (_, a) = step(
        &p,
        m,
        ContextPinEvent::RolloutLocated(Err("disk on fire".to_string())),
    );
    assert_eq!(
        error_of(a),
        (
            INTERNAL_ERROR_CODE,
            format!("failed to locate thread id {THREAD}: disk on fire")
        )
    );
}

#[test]
fn a_server_without_state_db_refuses_threads_without_one() {
    let p = processor(false);
    let (m, _) = p
        .start(ContextPinRequest::List {
            thread_id: THREAD.to_string(),
            cursor: None,
            limit: None,
        })
        .expect("valid request");
    let (_, a) = step(&p, m, running(false));
    assert_eq!(
        error_of(a),
        (
            INTERNAL_ERROR_CODE,
            "sqlite state db unavailable for thread context pins".to_string()
        )
    );
}

#[test]
fn update_of_a_missing_pin_answers_none_without_writing() {
    let p = processor(true);
    let (m, _) = p
        .start(ContextPinRequest::Update {
            thread_id: THREAD.to_string(),
            pin_id: "missing-pin".to_string(),
            text: "new text".to_string(),
        })
        .expect("valid request");
    let (m, a) = step(&p, m, running(false));
    assert!(matches!(a, ContextPinAction::ListPins { db: StateDbSource::Processor, .. }));
    let (m, a) = step(&p, m, ContextPinEvent::PinsListed(Ok(vec![pin("pin-1", "a")])));
    assert_eq!(m.phase(), ContextPinPhase::Done);
    assert!(matches!(
        response_of(a),
        ContextPinResponse::Update { pin: None }
    ));
}

#[test]
fn update_of_a_held_pin_writes_then_answers_it() {
    let p = processor(true);
    let (m, _) = p
        .start(ContextPinRequest::Update {
            thread_id: THREAD.to_string(),
            pin_id: "pin-1".to_string(),
            text: "Keep issue #26889 linked".to_string(),
        })
        .expect("valid request");
    let (m, _) = step(&p, m, running(true));
    let (m, a) = step(&p, m, ContextPinEvent::PinsListed(Ok(vec![pin("pin-1", "old")])));
    match &a {
        ContextPinAction::UpdatePin { pin_id, text, .. } => {
            assert_eq!(pin_id, "pin-1");
            assert_eq!(text, "Keep issue #26889 linked");
        }
        _ => panic!("expected an update"),
    }
    let (_, a) = step(
        &p,
        m,
        ContextPinEvent::PinUpdated(Ok(Some(pin("pin-1", "Keep issue #26889 linked")))),
    );
    match response_of(a) {
        ContextPinResponse::Update { pin: Some(pin) } => {
            assert_eq!(pin.text, "Keep issue #26889 linked")
        }
        _ => panic!("expected the updated pin"),
    }
}

#[test]
fn delete_asks_for_the_deletion_and_answers_its_outcome() {
    let p = processor(true);
    let (m, _) = p
        .start(ContextPinRequest::Delete {
            thread_id: THREAD.to_string(),
            pin_id: "pin-1".to_string(),
        })
        .expect("valid request");
    let (m, a) = step(&p, m, running(true));
    assert!(matches!(&a, ContextPinAction::DeletePin { pin_id, .. } if pin_id == "pin-1"));
    let (_, a) = step(&p, m, ContextPinEvent::PinDeleted(Ok(true)));
    assert!(matches!(
        response_of(a),
        ContextPinResponse::Delete { deleted: true }
    ));
}

#[test]
fn list_pages_the_listed_pins() {
    let p = processor(true);
    let (m, _) = p
        .start(ContextPinRequest::List {
            thread_id: THREAD.to_string(),
            cursor: Some("1".to_string()),
            limit: Some(1),
        })
        .expect("valid request");
    let (m, _) = step(&p, m, running(true));
    let pins = vec![pin("pin-0", "a"), pin("pin-1", "b"), pin("pin-2", "c")];
    let (_, a) = step(&p, m, ContextPinEvent::PinsListed(Ok(pins)));
    match response_of(a) {
        ContextPinResponse::List { data, next_cursor } => {
            assert_eq!(data.len(), 1);
            assert_eq!(data[0].pin_id, "pin-1");
            assert_eq!(next_cursor.as_deref(), Some("2"));
        }
        _ => panic!("expected a page"),
    }
}

#[test]
fn listing_failures_are_internal_errors() {
    let p = processor(true);
    let (m, _) = p
        .start(ContextPinRequest::List {
            thread_id: THREAD.to_string(),
            cursor: None,
            limit: None,
        })
        .expect("valid request");
    let (m, _) = step(&p, m, running(true));
    let (_, a) = step(&p, m, ContextPinEvent::PinsListed(Err("locked".to_string())));
    assert_eq!(
        error_of(a),
        (
            INTERNAL_ERROR_CODE,
            "failed to list thread context pins: locked".to_string()
        )
    );
}

#[test]
fn requests_are_checked_before_the_thread_is_sought() {
    let p = processor(true);
    let err = p
        .start(ContextPinRequest::Update {
            thread_id: "not-a-thread".to_string(),
            pin_id: "  ".to_string(),
            text: "".to_string(),
        })
        .err()
        .expect("blank pin id");
    assert_eq!(err.message, "pinId must not be empty");
    let err = p
        .start(ContextPinRequest::Create {
            thread_id: "not-a-thread".to_string(),
            text: "\n".to_string(),
        })
        .err()
        .expect("blank text");
    assert_eq!(err.message, "context pin text must not be empty");
    let err = p
        .start(ContextPinRequest::List {
            thread_id: "not-a-thread".to_string(),
            cursor: None,
            limit: None,
        })
        .err()
        .expect("invalid thread id");
    assert_eq!(err.code, INVALID_REQUEST_ERROR_CODE);
    let uuid_err = uuid::Uuid::parse_str("not-a-thread").unwrap_err();
    assert_eq!(err.message, format!("invalid thread id: {uuid_err}"));
}

#[test]
fn thread_ids_of_requests_are_parsed() {
    let id = parse_thread_id_for_context_pin_request(THREAD).expect("valid thread id");
    assert_eq!(id.to_string(), THREAD);
    for text in ["nope", "", "67e55044-10b1-426f-9247-bb680e5fe0cz"] {
        let err = parse_thread_id_for_context_pin_request(text).unwrap_err();
        assert_eq!(err.code, INVALID_REQUEST_ERROR_CODE);
        let uuid_err = uuid::Uuid::parse_str(text).unwrap_err();
        assert_eq!(err.message, format!("invalid thread id: {uuid_err}"));
    }
}

#[test]
fn events_that_do_not_fit_are_not_accepted() {
    let p = processor(true);
    let (m, _) = p
        .start(ContextPinRequest::List {
            thread_id: THREAD.to_string(),
            cursor: None,
            limit: None,
        })
        .expect("valid request");
    assert!(!accepts_event(&m, &ContextPinEvent::RolloutReconciled));
    assert!(accepts_event(&m, &ContextPinEvent::ThreadLookedUp(None)));
    let (m, _) = step(&p, m, running(true));
    assert!(!accepts_event(&m, &ContextPinEvent::PinDeleted(Ok(true))));
    let (m, _) = step(&p, m, ContextPinEvent::PinsListed(Ok(Vec::new())));
    assert!(!accepts_event(&m, &ContextPinEvent::RolloutReconciled));
}
