//! The poll-and-react engine: a strictly sequential state machine that drives
//! one long-poll cycle after another.
//!
//! Each cycle polls, reacts to the returned batch (at most one
//! verification-and-notify sequence per batch, however many events matched),
//! persists the batch's cursor, and only then adopts it. Every failure is
//! classified into exactly two kinds: fatal (cursor-store I/O), which stops
//! the machine, and retryable (everything else), which leaves the cursor
//! untouched and backs off before polling again. The machine itself performs
//! no outside work: it consumes outcome events and emits the next action,
//! and the surrounding process executes the actions.

use vstd::prelude::*;

use crate::errors::Error;
use crate::events::EventBatch;
use crate::events::spec_batch_triggers;
use crate::events::batch_triggers;

verus! {

/// The static configuration the reaction rules need: which room to watch,
/// which substring triggers a verification, and the two notice templates.
pub struct ReactionConfig {
    pub room_id: String,
    pub trigger: String,
    pub msg_up_to_date: String,
    pub msg_out_of_date: String,
}

/// Where the machine stands inside one cycle. The `next` field of the middle
/// phases is the candidate cursor returned by the cycle's poll: not yet
/// durable, adopted only after it has been persisted.
pub enum Phase {
    /// A poll request is outstanding.
    Polling,
    /// The batch triggered; the verification step is outstanding.
    Verifying { next: String },
    /// Verification finished; the notice delivery is outstanding.
    Notifying { next: String },
    /// The candidate cursor is being persisted.
    Persisting { next: String },
    /// A retryable failure occurred; the fixed backoff delay is running.
    BackingOff,
    /// The machine has terminated: cleanly on cancellation, or on a fatal
    /// failure.
    Stopped { clean: bool },
}

/// The whole state of the loop: the last durably persisted cursor, and the
/// phase within the current cycle.
pub struct LoopState {
    pub cursor: String,
    pub phase: Phase,
}

/// What the surrounding process must do next.
pub enum Action {
    /// Issue a poll with this cursor; the empty cursor means "from the
    /// beginning" and is omitted from the request.
    Poll { since: String },
    /// Run the checksum verification step once.
    Verify,
    /// Deliver this notice text to the room once.
    Notify { text: String },
    /// Durably persist this cursor.
    Persist { cursor: String },
    /// Wait the fixed backoff delay.
    Sleep,
    /// Terminate: cleanly on cancellation, with a failure indication
    /// otherwise.
    Exit { clean: bool },
}

/// The outcome of the action the process just executed.
pub enum Event {
    /// The poll returned a batch.
    PollOk(EventBatch),
    /// The poll failed.
    PollFailed(Error),
    /// The verification step returned its consistency verdict.
    VerifyOk(bool),
    /// The verification step failed.
    VerifyFailed(Error),
    /// The notice was delivered.
    NotifyOk,
    /// The notice delivery failed.
    NotifyFailed(Error),
    /// The cursor was durably persisted.
    PersistOk,
    /// Persisting the cursor failed.
    PersistFailed(Error),
    /// The backoff delay elapsed.
    SleepDone,
    /// Cancellation was observed. It is only observable while a poll request
    /// or the backoff delay is outstanding.
    Cancelled,
}

/// The mathematical image of a phase.
#[verifier::ext_equal]
pub enum PhaseModel {
    Polling,
    Verifying { next: Seq<char> },
    Notifying { next: Seq<char> },
    Persisting { next: Seq<char> },
    BackingOff,
    Stopped { clean: bool },
}

/// The mathematical image of the loop state.
#[verifier::ext_equal]
pub struct StateModel {
    pub cursor: Seq<char>,
    pub phase: PhaseModel,
}

/// The mathematical image of an action.
#[verifier::ext_equal]
pub enum ActionModel {
    Poll { since: Seq<char> },
    Verify,
    Notify { text: Seq<char> },
    Persist { cursor: Seq<char> },
    Sleep,
    Exit { clean: bool },
}

/// The mathematical image of an event. A poll result is reduced to what the
/// machine reads from it: the candidate cursor and the trigger decision; a
/// failure is reduced to its severity.
#[verifier::ext_equal]
pub enum EventModel {
    PollOk { next: Seq<char>, triggered: bool },
    PollFailed { fatal: bool },
    VerifyOk { consistent: bool },
    VerifyFailed { fatal: bool },
    NotifyOk,
    NotifyFailed { fatal: bool },
    PersistOk,
    PersistFailed { fatal: bool },
    SleepDone,
    Cancelled,
}

impl View for Phase {
    type V = PhaseModel;

    open spec fn view(&self) -> PhaseModel {
        match self {
            Phase::Polling => PhaseModel::Polling,
            Phase::Verifying { next } => PhaseModel::Verifying { next: next@ },
            Phase::Notifying { next } => PhaseModel::Notifying { next: next@ },
            Phase::Persisting { next } => PhaseModel::Persisting { next: next@ },
            Phase::BackingOff => PhaseModel::BackingOff,
            Phase::Stopped { clean } => PhaseModel::Stopped { clean: *clean },
        }
    }
}

impl View for LoopState {
    type V = StateModel;

    open spec fn view(&self) -> StateModel {
        StateModel { cursor: self.cursor@, phase: self.phase@ }
    }
}

impl View for Action {
    type V = ActionModel;

    open spec fn view(&self) -> ActionModel {
        match self {
            Action::Poll { since } => ActionModel::Poll { since: since@ },
            Action::Verify => ActionModel::Verify,
            Action::Notify { text } => ActionModel::Notify { text: text@ },
            Action::Persist { cursor } => ActionModel::Persist { cursor: cursor@ },
            Action::Sleep => ActionModel::Sleep,
            Action::Exit { clean } => ActionModel::Exit { clean: *clean },
        }
    }
}

/// The image of an outcome event under a given configuration: the trigger
/// decision of a returned batch, or the severity of a failure.
pub open spec fn event_model(cfg: ReactionConfig, e: Event) -> EventModel {
    match e {
        Event::PollOk(batch) => EventModel::PollOk {
            next: batch.next_batch@,
            triggered: spec_batch_triggers(batch, cfg.room_id@, cfg.trigger@),
        },
        Event::PollFailed(err) => EventModel::PollFailed { fatal: err.spec_is_fatal() },
        Event::VerifyOk(consistent) => EventModel::VerifyOk { consistent },
        Event::VerifyFailed(err) => EventModel::VerifyFailed { fatal: err.spec_is_fatal() },
        Event::NotifyOk => EventModel::NotifyOk,
        Event::NotifyFailed(err) => EventModel::NotifyFailed { fatal: err.spec_is_fatal() },
        Event::PersistOk => EventModel::PersistOk,
        Event::PersistFailed(err) => EventModel::PersistFailed { fatal: err.spec_is_fatal() },
        Event::SleepDone => EventModel::SleepDone,
        Event::Cancelled => EventModel::Cancelled,
    }
}

/// Which events can arrive in which phase: each outstanding piece of outside
/// work reports its own outcome, and cancellation is observable only while a
/// poll request or the backoff delay is outstanding. A stopped machine
/// accepts nothing.
pub open spec fn accepts(phase: PhaseModel, e: EventModel) -> bool {
    match (phase, e) {
        (PhaseModel::Polling, EventModel::PollOk { .. }) => true,
        (PhaseModel::Polling, EventModel::PollFailed { .. }) => true,
        (PhaseModel::Polling, EventModel::Cancelled) => true,
        (PhaseModel::Verifying { .. }, EventModel::VerifyOk { .. }) => true,
        (PhaseModel::Verifying { .. }, EventModel::VerifyFailed { .. }) => true,
        (PhaseModel::Notifying { .. }, EventModel::NotifyOk) => true,
        (PhaseModel::Notifying { .. }, EventModel::NotifyFailed { .. }) => true,
        (PhaseModel::Persisting { .. }, EventModel::PersistOk) => true,
        (PhaseModel::Persisting { .. }, EventModel::PersistFailed { .. }) => true,
        (PhaseModel::BackingOff, EventModel::SleepDone) => true,
        (PhaseModel::BackingOff, EventModel::Cancelled) => true,
        _ => false,
    }
}

/// How any failure is absorbed: a fatal one stops the machine with a failure
/// indication; a retryable one leaves the cursor untouched and backs off.
pub open spec fn spec_fail(cursor: Seq<char>, fatal: bool) -> (StateModel, ActionModel) {
    if fatal {
        (
            StateModel { cursor, phase: PhaseModel::Stopped { clean: false } },
            ActionModel::Exit { clean: false },
        )
    } else {
        (StateModel { cursor, phase: PhaseModel::BackingOff }, ActionModel::Sleep)
    }
}

/// The transition function of the machine. For a phase/event pair that
/// `accepts` rules out the result is immaterial; the executable step is never
/// called on one.
pub open spec fn spec_step(cfg: ReactionConfig, s: StateModel, e: EventModel) -> (
    StateModel,
    ActionModel,
) {
    match (s.phase, e) {
        (PhaseModel::Polling, EventModel::PollOk { next, triggered }) => {
            if triggered {
                (
                    StateModel { cursor: s.cursor, phase: PhaseModel::Verifying { next } },
                    ActionModel::Verify,
                )
            } else {
                (
                    StateModel { cursor: s.cursor, phase: PhaseModel::Persisting { next } },
                    ActionModel::Persist { cursor: next },
                )
            }
        },
        (PhaseModel::Polling, EventModel::PollFailed { fatal }) => spec_fail(s.cursor, fatal),
        (PhaseModel::Verifying { next }, EventModel::VerifyOk { consistent }) => (
            StateModel { cursor: s.cursor, phase: PhaseModel::Notifying { next } },
            ActionModel::Notify {
                text: if consistent {
                    cfg.msg_up_to_date@
                } else {
                    cfg.msg_out_of_date@
                },
            },
        ),
        (PhaseModel::Verifying { .. }, EventModel::VerifyFailed { fatal }) => spec_fail(
            s.cursor,
            fatal,
        ),
        (PhaseModel::Notifying { next }, EventModel::NotifyOk) => (
            StateModel { cursor: s.cursor, phase: PhaseModel::Persisting { next } },
            ActionModel::Persist { cursor: next },
        ),
        (PhaseModel::Notifying { .. }, EventModel::NotifyFailed { fatal }) => spec_fail(
            s.cursor,
            fatal,
        ),
        (PhaseModel::Persisting { next }, EventModel::PersistOk) => (
            StateModel { cursor: next, phase: PhaseModel::Polling },
            ActionModel::Poll { since: next },
        ),
        (PhaseModel::Persisting { .. }, EventModel::PersistFailed { fatal }) => spec_fail(
            s.cursor,
            fatal,
        ),
        (PhaseModel::BackingOff, EventModel::SleepDone) => (
            StateModel { cursor: s.cursor, phase: PhaseModel::Polling },
            ActionModel::Poll { since: s.cursor },
        ),
        (_, EventModel::Cancelled) => (
            StateModel { cursor: s.cursor, phase: PhaseModel::Stopped { clean: true } },
            ActionModel::Exit { clean: true },
        ),
        _ => (s, ActionModel::Sleep),
    }
}

/// Absorb a failure: classify it, then either stop or back off.
fn fail_step(cursor: String, err: &Error) -> (r: (LoopState, Action))
    ensures
        r.0@ == spec_fail(cursor@, err.spec_is_fatal()).0,
        r.1@ == spec_fail(cursor@, err.spec_is_fatal()).1,
{
    if err.is_fatal() {
        (
            LoopState { cursor, phase: Phase::Stopped { clean: false } },
            Action::Exit { clean: false },
        )
    } else {
        (LoopState { cursor, phase: Phase::BackingOff }, Action::Sleep)
    }
}

/// Take one transition: absorb the outcome of the last action and produce
/// the new state together with the next action to execute.
pub fn step(cfg: &ReactionConfig, state: LoopState, event: Event) -> (r: (LoopState, Action))
    requires
        accepts(state@.phase, event_model(*cfg, event)),
    ensures
        r.0@ == spec_step(*cfg, state@, event_model(*cfg, event)).0,
        r.1@ == spec_step(*cfg, state@, event_model(*cfg, event)).1,
{
    let LoopState { cursor, phase } = state;
    match (phase, event) {
        (Phase::Polling, Event::PollOk(batch)) => {
            let triggered = batch_triggers(&batch, cfg.room_id.as_str(), cfg.trigger.as_str());
            let next = batch.next_batch;
            if triggered {
                (LoopState { cursor, phase: Phase::Verifying { next } }, Action::Verify)
            } else {
                let persisted = next.clone();
                (
                    LoopState { cursor, phase: Phase::Persisting { next } },
                    Action::Persist { cursor: persisted },
                )
            }
        },
        (Phase::Polling, Event::PollFailed(err)) => fail_step(cursor, &err),
        (Phase::Verifying { next }, Event::VerifyOk(consistent)) => {
            let text = if consistent {
                cfg.msg_up_to_date.clone()
            } else {
                cfg.msg_out_of_date.clone()
            };
            (LoopState { cursor, phase: Phase::Notifying { next } }, Action::Notify { text })
        },
        (Phase::Verifying { next: _ }, Event::VerifyFailed(err)) => fail_step(cursor, &err),
        (Phase::Notifying { next }, Event::NotifyOk) => {
            let persisted = next.clone();
            (
                LoopState { cursor, phase: Phase::Persisting { next } },
                Action::Persist { cursor: persisted },
            )
        },
        (Phase::Notifying { next: _ }, Event::NotifyFailed(err)) => fail_step(cursor, &err),
        (Phase::Persisting { next }, Event::PersistOk) => {
            let since = next.clone();
            (LoopState { cursor: next, phase: Phase::Polling }, Action::Poll { since })
        },
        (Phase::Persisting { next: _ }, Event::PersistFailed(err)) => fail_step(cursor, &err),
        (Phase::BackingOff, Event::SleepDone) => {
            let since = cursor.clone();
            (LoopState { cursor, phase: Phase::Polling }, Action::Poll { since })
        },
        (_, Event::Cancelled) => (
            LoopState { cursor, phase: Phase::Stopped { clean: true } },
            Action::Exit { clean: true },
        ),
        (phase, _) => {
            // Ruled out by `accepts`.
            proof {
                assert(false);
            }
            (LoopState { cursor, phase }, Action::Sleep)
        },
    }
}

/// The state the loop starts in, together with its first action: the cursor
/// read from the store (the empty string when none was stored yet), about to
/// issue its first poll with exactly that cursor.
pub fn start(cursor: String) -> (r: (LoopState, Action))
    ensures
        r.0@ == (StateModel { cursor: cursor@, phase: PhaseModel::Polling }),
        r.1@ == (ActionModel::Poll { since: cursor@ }),
{
    let since = cursor.clone();
    (LoopState { cursor, phase: Phase::Polling }, Action::Poll { since })
}

/// Run the machine over a sequence of events: the final state and the
/// actions emitted, one per event, in order.
pub open spec fn spec_run(cfg: ReactionConfig, s: StateModel, events: Seq<EventModel>) -> (
    StateModel,
    Seq<ActionModel>,
)
    decreases events.len(),
{
    if events.len() == 0 {
        (s, Seq::empty())
    } else {
        let first = spec_step(cfg, s, events[0]);
        let rest = spec_run(cfg, first.0, events.drop_first());
        (rest.0, seq![first.1] + rest.1)
    }
}

/// How many of the actions request a verification run.
pub open spec fn count_verify(actions: Seq<ActionModel>) -> nat
    decreases actions.len(),
{
    if actions.len() == 0 {
        0
    } else {
        (if actions[0] is Verify {
            1nat
        } else {
            0nat
        }) + count_verify(actions.drop_first())
    }
}

/// How many of the actions request a notice delivery.
pub open spec fn count_notify(actions: Seq<ActionModel>) -> nat
    decreases actions.len(),
{
    if actions.len() == 0 {
        0
    } else {
        (if actions[0] is Notify {
            1nat
        } else {
            0nat
        }) + count_notify(actions.drop_first())
    }
}

/// How many of the events are the batches of completed polls.
pub open spec fn count_poll_ok(events: Seq<EventModel>) -> nat
    decreases events.len(),
{
    if events.len() == 0 {
        0
    } else {
        (if events[0] is PollOk {
            1nat
        } else {
            0nat
        }) + count_poll_ok(events.drop_first())
    }
}

/// How many of the events are verification verdicts.
pub open spec fn count_verify_ok(events: Seq<EventModel>) -> nat
    decreases events.len(),
{
    if events.len() == 0 {
        0
    } else {
        (if events[0] is VerifyOk {
            1nat
        } else {
            0nat
        }) + count_verify_ok(events.drop_first())
    }
}

/// The event is the failure outcome of some outstanding work.
pub open spec fn is_failure(e: EventModel) -> bool {
    ||| e is PollFailed
    ||| e is VerifyFailed
    ||| e is NotifyFailed
    ||| e is PersistFailed
}

/// The severity a failure event carries.
pub open spec fn failure_fatal(e: EventModel) -> bool {
    match e {
        EventModel::PollFailed { fatal } => fatal,
        EventModel::VerifyFailed { fatal } => fatal,
        EventModel::NotifyFailed { fatal } => fatal,
        EventModel::PersistFailed { fatal } => fatal,
        _ => false,
    }
}

/// Law: a batch with no matching notice event makes a no-op cycle. The two
/// outcome events of such a cycle — the poll's batch and the acknowledged
/// persist — produce exactly a persist of the batch's cursor and the next
/// poll: verification and notification are never requested, and the adopted
/// cursor is the batch's `next_batch`.
pub proof fn lemma_noop_cycle(cfg: ReactionConfig, s: StateModel, batch: EventBatch)
    requires
        s.phase is Polling,
        !spec_batch_triggers(batch, cfg.room_id@, cfg.trigger@),
    ensures
        ({
            let events = seq![event_model(cfg, Event::PollOk(batch)), EventModel::PersistOk];
            let r = spec_run(cfg, s, events);
            &&& r.1 =~= seq![
                ActionModel::Persist { cursor: batch.next_batch@ },
                ActionModel::Poll { since: batch.next_batch@ },
            ]
            &&& count_verify(r.1) == 0
            &&& count_notify(r.1) == 0
            &&& r.0.cursor == batch.next_batch@
            &&& r.0.phase is Polling
        }),
{
    reveal_with_fuel(spec_run, 3);
    reveal_with_fuel(count_verify, 3);
    reveal_with_fuel(count_notify, 3);
    let events = seq![event_model(cfg, Event::PollOk(batch)), EventModel::PersistOk];
    let r = spec_run(cfg, s, events);
    assert(events.drop_first() =~= seq![EventModel::PersistOk]);
    assert(events.drop_first().drop_first() =~= Seq::<EventModel>::empty());
    assert(r.1 =~= seq![
        ActionModel::Persist { cursor: batch.next_batch@ },
        ActionModel::Poll { since: batch.next_batch@ },
    ]);
    assert(r.1.drop_first() =~= seq![ActionModel::Poll { since: batch.next_batch@ }]);
    assert(r.1.drop_first().drop_first() =~= Seq::<ActionModel>::empty());
}

/// Law: a batch with at least one matching notice event makes a triggered
/// cycle whose four outcome events produce exactly one verification request
/// and exactly one notice delivery, however many events in the batch
/// matched; the notice text is the "up to date" template exactly when the
/// verification verdict was consistent; and the cursor adopted and persisted
/// is the batch's `next_batch`.
pub proof fn lemma_triggered_cycle(
    cfg: ReactionConfig,
    s: StateModel,
    batch: EventBatch,
    consistent: bool,
)
    requires
        s.phase is Polling,
        spec_batch_triggers(batch, cfg.room_id@, cfg.trigger@),
    ensures
        ({
            let events = seq![
                event_model(cfg, Event::PollOk(batch)),
                EventModel::VerifyOk { consistent },
                EventModel::NotifyOk,
                EventModel::PersistOk,
            ];
            let r = spec_run(cfg, s, events);
            &&& r.1 =~= seq![
                ActionModel::Verify,
                ActionModel::Notify {
                    text: if consistent {
                        cfg.msg_up_to_date@
                    } else {
                        cfg.msg_out_of_date@
                    },
                },
                ActionModel::Persist { cursor: batch.next_batch@ },
                ActionModel::Poll { since: batch.next_batch@ },
            ]
            &&& count_verify(r.1) == 1
            &&& count_notify(r.1) == 1
            &&& r.0.cursor == batch.next_batch@
            &&& r.0.phase is Polling
        }),
{
    let text = if consistent {
        cfg.msg_up_to_date@
    } else {
        cfg.msg_out_of_date@
    };
    reveal_with_fuel(spec_run, 5);
    reveal_with_fuel(count_verify, 5);
    reveal_with_fuel(count_notify, 5);
    let events = seq![
        event_model(cfg, Event::PollOk(batch)),
        EventModel::VerifyOk { consistent },
        EventModel::NotifyOk,
        EventModel::PersistOk,
    ];
    let r = spec_run(cfg, s, events);
    assert(events.drop_first() =~= seq![
        EventModel::VerifyOk { consistent },
        EventModel::NotifyOk,
        EventModel::PersistOk,
    ]);
    assert(events.drop_first().drop_first() =~= seq![EventModel::NotifyOk, EventModel::PersistOk]);
    assert(events.drop_first().drop_first().drop_first() =~= seq![EventModel::PersistOk]);
    assert(events.drop_first().drop_first().drop_first().drop_first() =~= Seq::<
        EventModel,
    >::empty());
    let actions = seq![
        ActionModel::Verify,
        ActionModel::Notify { text },
        ActionModel::Persist { cursor: batch.next_batch@ },
        ActionModel::Poll { since: batch.next_batch@ },
    ];
    assert(r.1 =~= actions);
    assert(actions.drop_first() =~= seq![
        ActionModel::Notify { text },
        ActionModel::Persist { cursor: batch.next_batch@ },
        ActionModel::Poll { since: batch.next_batch@ },
    ]);
    assert(actions.drop_first().drop_first() =~= seq![
        ActionModel::Persist { cursor: batch.next_batch@ },
        ActionModel::Poll { since: batch.next_batch@ },
    ]);
    assert(actions.drop_first().drop_first().drop_first() =~= seq![
        ActionModel::Poll { since: batch.next_batch@ },
    ]);
    assert(actions.drop_first().drop_first().drop_first().drop_first() =~= Seq::<
        ActionModel,
    >::empty());
    assert(count_verify(r.1) == 1);
    assert(count_notify(r.1) == 1);
}

/// Law: a retryable failure leaves the cursor exactly as it was, requests no
/// persist (only the fixed backoff delay), and the machine re-enters polling
/// from the unchanged cursor once the delay has elapsed.
pub proof fn lemma_retryable_failure_keeps_cursor(
    cfg: ReactionConfig,
    s: StateModel,
    e: EventModel,
)
    requires
        accepts(s.phase, e),
        is_failure(e),
        !failure_fatal(e),
    ensures
        ({
            let r = spec_step(cfg, s, e);
            &&& r.0.cursor == s.cursor
            &&& r.0.phase is BackingOff
            &&& r.1 is Sleep
            &&& !(r.1 is Persist)
            &&& spec_step(cfg, r.0, EventModel::SleepDone).1 == (ActionModel::Poll {
                since: s.cursor,
            })
            &&& spec_step(cfg, r.0, EventModel::SleepDone).0.cursor == s.cursor
        }),
{
}

/// Law: over any run whatsoever — any start state, any events, any length —
/// verification is requested at most once per completed poll, and a notice
/// at most once per verification verdict. However many events of one batch
/// match the trigger, they can never multiply the verification runs or the
/// notices.
pub proof fn lemma_at_most_one_reaction_per_poll(
    cfg: ReactionConfig,
    s: StateModel,
    events: Seq<EventModel>,
)
    ensures
        count_verify(spec_run(cfg, s, events).1) <= count_poll_ok(events),
        count_notify(spec_run(cfg, s, events).1) <= count_verify_ok(events),
    decreases events.len(),
{
    if events.len() > 0 {
        let first = spec_step(cfg, s, events[0]);
        let rest = spec_run(cfg, first.0, events.drop_first());
        lemma_at_most_one_reaction_per_poll(cfg, first.0, events.drop_first());
        let actions = seq![first.1] + rest.1;
        assert(actions.drop_first() =~= rest.1);
        assert(actions[0] == first.1);
        assert(first.1 is Verify ==> events[0] is PollOk);
        assert(first.1 is Notify ==> events[0] is VerifyOk);
    }
}

/// Law: cancellation is observable only while a poll request or the backoff
/// delay is outstanding. Once a trigger has been accepted, the
/// verify-and-notify sequence and its persistence run to completion before a
/// pending cancellation is honoured, so the machine never stops past an
/// unpersisted reaction.
pub proof fn lemma_cancel_only_at_suspension_points(phase: PhaseModel)
    ensures
        accepts(phase, EventModel::Cancelled) <==> (phase is Polling || phase is BackingOff),
{
}

/// Law: the machine never wedges short of stopping — every phase except the
/// stopped one accepts at least one event, so the loop runs indefinitely
/// until cancelled or fatally failed.
pub proof fn lemma_machine_never_stuck(phase: PhaseModel)
    requires
        !(phase is Stopped),
    ensures
        exists|e: EventModel| accepts(phase, e),
{
    match phase {
        PhaseModel::Polling => {
            assert(accepts(phase, EventModel::Cancelled));
        },
        PhaseModel::Verifying { .. } => {
            assert(accepts(phase, EventModel::VerifyOk { consistent: true }));
        },
        PhaseModel::Notifying { .. } => {
            assert(accepts(phase, EventModel::NotifyOk));
        },
        PhaseModel::Persisting { .. } => {
            assert(accepts(phase, EventModel::PersistOk));
        },
        PhaseModel::BackingOff => {
            assert(accepts(phase, EventModel::SleepDone));
        },
        PhaseModel::Stopped { .. } => {
        },
    }
}

/// Law: the adopted cursor never changes except when a persist has been
/// acknowledged, and then it becomes exactly the candidate whose persist the
/// machine had requested. The on-disk cursor is therefore never behind a
/// batch the machine has not fully processed, and never ahead of the adopted
/// one.
pub proof fn lemma_cursor_advances_only_by_persist(
    cfg: ReactionConfig,
    s: StateModel,
    e: EventModel,
)
    requires
        accepts(s.phase, e),
    ensures
        ({
            let r = spec_step(cfg, s, e);
            r.0.cursor != s.cursor ==> {
                &&& e is PersistOk
                &&& s.phase matches PhaseModel::Persisting { next } && r.0.cursor == next
            }
        }),
{
}

/// Law: a fatal failure — a cursor-store I/O failure, the only fatal kind —
/// stops the machine at once with a failure indication, without touching the
/// cursor, and the stopped machine accepts no further event: no further poll
/// is ever requested.
pub proof fn lemma_fatal_failure_stops(cfg: ReactionConfig, s: StateModel, e: EventModel)
    requires
        accepts(s.phase, e),
        is_failure(e),
        failure_fatal(e),
    ensures
        ({
            let r = spec_step(cfg, s, e);
            &&& r.0.cursor == s.cursor
            &&& r.0.phase is Stopped
            &&& r.1 == (ActionModel::Exit { clean: false })
            &&& forall|later: EventModel| !accepts(r.0.phase, later)
        }),
{
}

} // verus!
