//! Scenario tests for the poll/react/persist state machine.

use checker_bot::{
    Action, Error, Event, EventBatch, LoopState, MessageEvent, MessageEventContent, MessageType,
    Phase, ReactionConfig, RoomEvents, event_matches, step,
};

fn test_config() -> ReactionConfig {
    ReactionConfig {
        room_id: String::from("!room:example.org"),
        trigger: String::from("push:"),
        msg_up_to_date: String::from("deps are up to date"),
        msg_out_of_date: String::from("deps are out of date"),
    }
}

fn notice(body: Option<&str>) -> MessageEvent {
    MessageEvent {
        content: MessageEventContent {
            body: body.map(String::from),
            msgtype: Some(MessageType::Notice),
        },
    }
}

fn batch_with_events(next: &str, room_id: &str, events: Vec<MessageEvent>) -> EventBatch {
    EventBatch {
        next_batch: String::from(next),
        rooms: Some(vec![RoomEvents { room_id: String::from(room_id), events }]),
    }
}

fn assert_persist(action: &Action, expected: &str) {
    match action {
        Action::Persist { cursor } => assert_eq!(cursor, expected),
        _ => panic!("expected a persist action"),
    }
}

fn assert_poll(action: &Action, expected_since: &str) {
    match action {
        Action::Poll { since } => assert_eq!(since, expected_since),
        _ => panic!("expected a poll action"),
    }
}

#[test]
fn empty_store_first_poll_persists_and_advances() {
    // Empty store: the loop starts from the empty cursor; the first poll
    // returns a batch with no rooms at all. The cursor is persisted and the
    // next poll uses it.
    let cfg = test_config();
    let state = LoopState { cursor: String::new(), phase: Phase::Polling };
    let batch = EventBatch { next_batch: String::from("t1"), rooms: None };
    let (state, action) = step(&cfg, state, Event::PollOk(batch));
    assert_persist(&action, "t1");
    let (state, action) = step(&cfg, state, Event::PersistOk);
    assert_poll(&action, "t1");
    assert_eq!(state.cursor, "t1");
    assert!(matches!(state.phase, Phase::Polling));
}

#[test]
fn no_matching_event_is_a_noop_cycle() {
    // A batch whose only events do not match produces no verification and no
    // notice, but still persists the new cursor.
    let cfg = test_config();
    let state = LoopState { cursor: String::from("t1"), phase: Phase::Polling };
    let plain_text = MessageEvent {
        content: MessageEventContent {
            body: Some(String::from("push: something")),
            msgtype: Some(MessageType::Unsupported),
        },
    };
    let unrelated_notice = notice(Some("hello there"));
    let batch = batch_with_events("t2", "!room:example.org", vec![plain_text, unrelated_notice]);
    let (state, action) = step(&cfg, state, Event::PollOk(batch));
    assert_persist(&action, "t2");
    let (state, action) = step(&cfg, state, Event::PersistOk);
    assert_poll(&action, "t2");
    assert_eq!(state.cursor, "t2");
}

#[test]
fn matching_notice_triggers_one_verify_and_one_notify() {
    // A notice containing the trigger starts the verification; a consistent
    // verdict sends the "up to date" template; the cursor still advances.
    let cfg = test_config();
    let state = LoopState { cursor: String::from("t1"), phase: Phase::Polling };
    let batch = batch_with_events("t2", "!room:example.org", vec![notice(Some(
        "push: deps updated",
    ))]);
    let (state, action) = step(&cfg, state, Event::PollOk(batch));
    assert!(matches!(action, Action::Verify));
    let (state, action) = step(&cfg, state, Event::VerifyOk(true));
    match &action {
        Action::Notify { text } => assert_eq!(text, "deps are up to date"),
        _ => panic!("expected a notify action"),
    }
    let (state, action) = step(&cfg, state, Event::NotifyOk);
    assert_persist(&action, "t2");
    let (state, action) = step(&cfg, state, Event::PersistOk);
    assert_poll(&action, "t2");
    assert_eq!(state.cursor, "t2");
}

#[test]
fn inconsistent_verdict_sends_out_of_date_template() {
    let cfg = test_config();
    let state = LoopState { cursor: String::from("t1"), phase: Phase::Polling };
    let batch = batch_with_events("t2", "!room:example.org", vec![notice(Some(
        "push: deps updated",
    ))]);
    let (state, _) = step(&cfg, state, Event::PollOk(batch));
    let (_, action) = step(&cfg, state, Event::VerifyOk(false));
    match &action {
        Action::Notify { text } => assert_eq!(text, "deps are out of date"),
        _ => panic!("expected a notify action"),
    }
}

#[test]
fn many_matching_events_still_verify_once() {
    // Three matching notices in one batch collapse to a single
    // verification-and-notify sequence.
    let cfg = test_config();
    let state = LoopState { cursor: String::from("t1"), phase: Phase::Polling };
    let batch = batch_with_events("t2", "!room:example.org", vec![
        notice(Some("push: one")),
        notice(Some("push: two")),
        notice(Some("push: three")),
    ]);
    let mut verifies = 0;
    let mut notifies = 0;
    let mut state = state;
    let mut event = Some(Event::PollOk(batch));
    while let Some(e) = event.take() {
        let (next_state, action) = step(&cfg, state, e);
        state = next_state;
        event = match action {
            Action::Verify => {
                verifies += 1;
                Some(Event::VerifyOk(true))
            }
            Action::Notify { .. } => {
                notifies += 1;
                Some(Event::NotifyOk)
            }
            Action::Persist { .. } => Some(Event::PersistOk),
            Action::Poll { .. } => None,
            _ => panic!("unexpected action in a triggered cycle"),
        };
    }
    assert_eq!(verifies, 1);
    assert_eq!(notifies, 1);
    assert_eq!(state.cursor, "t2");
}

#[test]
fn redacted_notice_without_body_matches_nothing_but_does_not_crash() {
    // A notice with the kind present and the body absent counts as an empty
    // body: it cannot contain the non-empty trigger, so it contributes no
    // trigger by itself.
    let cfg = test_config();
    let state = LoopState { cursor: String::from("t1"), phase: Phase::Polling };
    let batch = batch_with_events("t2", "!room:example.org", vec![notice(None)]);
    let (_, action) = step(&cfg, state, Event::PollOk(batch));
    assert_persist(&action, "t2");
}

#[test]
fn redacted_notice_matches_empty_trigger() {
    // With an empty trigger substring the empty body does match.
    let mut cfg = test_config();
    cfg.trigger = String::new();
    let state = LoopState { cursor: String::from("t1"), phase: Phase::Polling };
    let batch = batch_with_events("t2", "!room:example.org", vec![notice(None)]);
    let (_, action) = step(&cfg, state, Event::PollOk(batch));
    assert!(matches!(action, Action::Verify));
}

#[test]
fn matching_notice_in_another_room_is_ignored() {
    let cfg = test_config();
    let state = LoopState { cursor: String::from("t1"), phase: Phase::Polling };
    let batch = batch_with_events("t2", "!other:example.org", vec![notice(Some("push: x"))]);
    let (_, action) = step(&cfg, state, Event::PollOk(batch));
    assert_persist(&action, "t2");
}

#[test]
fn network_failure_backs_off_and_retries_with_unchanged_cursor() {
    // A retryable failure: the cursor is untouched, no persist is requested,
    // and after the backoff the poll uses the same cursor.
    let cfg = test_config();
    let state = LoopState { cursor: String::from("t5"), phase: Phase::Polling };
    let err = Error::Network(String::from("connection reset"));
    let (state, action) = step(&cfg, state, Event::PollFailed(err));
    assert!(matches!(action, Action::Sleep));
    assert_eq!(state.cursor, "t5");
    assert!(matches!(state.phase, Phase::BackingOff));
    let (state, action) = step(&cfg, state, Event::SleepDone);
    assert_poll(&action, "t5");
    assert_eq!(state.cursor, "t5");
}

#[test]
fn verify_and_notify_failures_are_retryable() {
    let cfg = test_config();
    let state = LoopState { cursor: String::from("t1"), phase: Phase::Polling };
    let batch = batch_with_events("t2", "!room:example.org", vec![notice(Some("push: x"))]);
    let (state, _) = step(&cfg, state, Event::PollOk(batch));
    let err = Error::Json(String::from("bad manifest"));
    let (state, action) = step(&cfg, state, Event::VerifyFailed(err));
    assert!(matches!(action, Action::Sleep));
    assert_eq!(state.cursor, "t1");

    let state = LoopState {
        cursor: String::from("t1"),
        phase: Phase::Notifying { next: String::from("t2") },
    };
    let err = Error::Network(String::from("timeout"));
    let (state, action) = step(&cfg, state, Event::NotifyFailed(err));
    assert!(matches!(action, Action::Sleep));
    assert_eq!(state.cursor, "t1");
}

#[test]
fn io_failure_stops_the_machine() {
    // The fatal path: a cursor-store I/O failure terminates the loop with a
    // failure indication and without advancing the cursor.
    let cfg = test_config();
    let state = LoopState {
        cursor: String::from("t1"),
        phase: Phase::Persisting { next: String::from("t2") },
    };
    let err = Error::Io(String::from("permission denied"));
    let (state, action) = step(&cfg, state, Event::PersistFailed(err));
    assert!(matches!(action, Action::Exit { clean: false }));
    assert_eq!(state.cursor, "t1");
    assert!(matches!(state.phase, Phase::Stopped { clean: false }));
}

#[test]
fn cancellation_exits_cleanly() {
    let cfg = test_config();
    let state = LoopState { cursor: String::from("t3"), phase: Phase::Polling };
    let (state, action) = step(&cfg, state, Event::Cancelled);
    assert!(matches!(action, Action::Exit { clean: true }));
    assert_eq!(state.cursor, "t3");

    let cfg = test_config();
    let state = LoopState { cursor: String::from("t3"), phase: Phase::BackingOff };
    let (state, action) = step(&cfg, state, Event::Cancelled);
    assert!(matches!(action, Action::Exit { clean: true }));
    assert!(matches!(state.phase, Phase::Stopped { clean: true }));
}

#[test]
fn event_matching_rules() {
    // Only the notice kind can match.
    assert!(event_matches(&notice(Some("push: x")), "push:"));
    let text_kind = MessageEvent {
        content: MessageEventContent {
            body: Some(String::from("push: x")),
            msgtype: Some(MessageType::Unsupported),
        },
    };
    assert!(!event_matches(&text_kind, "push:"));
    let no_kind = MessageEvent {
        content: MessageEventContent { body: Some(String::from("push: x")), msgtype: None },
    };
    assert!(!event_matches(&no_kind, "push:"));
    // An absent body is an empty body: it matches only the empty trigger.
    assert!(!event_matches(&notice(None), "push:"));
    assert!(event_matches(&notice(None), ""));
    // The match is case-sensitive.
    assert!(!event_matches(&notice(Some("PUSH: x")), "push:"));
}

#[test]
fn error_classification_is_two_buckets() {
    assert!(Error::Io(String::from("x")).is_fatal());
    assert!(!Error::Network(String::from("x")).is_fatal());
    assert!(!Error::Json(String::from("x")).is_fatal());
    assert!(!Error::UrlParse(String::from("x")).is_fatal());
    assert_eq!(Error::Network(String::from("dns")).detail(), "dns");
}
