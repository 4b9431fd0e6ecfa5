//! The event model of one poll response, and the trigger-matching rules.
//!
//! A batch is what one poll returns: a next cursor, and optionally the
//! timeline events of the joined rooms. An event matches when its kind is
//! notice and its body — taken as empty when the backend omitted it, as it
//! does on redacted events — contains the configured trigger substring.

use vstd::prelude::*;

use crate::text::contains_seq;
use crate::text::str_contains;
use crate::text::str_eq;

verus! {

/// The `msgtype` property of a room-message event content. Only notices
/// matter to the bot; every other kind is lumped together.
#[derive(Clone, Copy, PartialEq, Eq, Structural)]
pub enum MessageType {
    Notice,
    Unsupported,
}

/// The content of a room-message event. The backend may omit either field;
/// in particular the body is absent on redacted or edited events.
pub struct MessageEventContent {
    pub body: Option<String>,
    pub msgtype: Option<MessageType>,
}

/// One room-message event of a poll response.
pub struct MessageEvent {
    pub content: MessageEventContent,
}

/// The timeline events of one joined room in a poll response.
pub struct RoomEvents {
    pub room_id: String,
    pub events: Vec<MessageEvent>,
}

/// Everything one poll returns: the cursor to resume from next, and the
/// joined rooms' timeline events, absent entirely when nothing happened.
pub struct EventBatch {
    pub next_batch: String,
    pub rooms: Option<Vec<RoomEvents>>,
}

/// The text of an event body, with an absent body read as the empty string.
pub open spec fn spec_body_text(content: MessageEventContent) -> Seq<char> {
    match content.body {
        Some(b) => b@,
        None => Seq::empty(),
    }
}

/// An event matches when its kind is notice and its body text contains the
/// trigger substring.
pub open spec fn spec_event_matches(event: MessageEvent, trigger: Seq<char>) -> bool {
    &&& event.content.msgtype == Some(MessageType::Notice)
    &&& contains_seq(spec_body_text(event.content), trigger)
}

/// The events of the first entry for the given room, or no events when the
/// batch has none for it.
pub open spec fn spec_room_events(rooms: Seq<RoomEvents>, room_id: Seq<char>) -> Seq<MessageEvent>
    decreases rooms.len(),
{
    if rooms.len() == 0 {
        Seq::empty()
    } else if rooms[0].room_id@ == room_id {
        rooms[0].events@
    } else {
        spec_room_events(rooms.drop_first(), room_id)
    }
}

/// The events the batch holds for the given room.
pub open spec fn spec_batch_events(batch: EventBatch, room_id: Seq<char>) -> Seq<MessageEvent> {
    match batch.rooms {
        Some(rooms) => spec_room_events(rooms@, room_id),
        None => Seq::empty(),
    }
}

/// Some event in the sequence matches the trigger.
pub open spec fn spec_any_match(events: Seq<MessageEvent>, trigger: Seq<char>) -> bool {
    exists|i: int| 0 <= i < events.len() && spec_event_matches(#[trigger] events[i], trigger)
}

/// The trigger decision for one batch: some event of the target room matches.
pub open spec fn spec_batch_triggers(
    batch: EventBatch,
    room_id: Seq<char>,
    trigger: Seq<char>,
) -> bool {
    spec_any_match(spec_batch_events(batch, room_id), trigger)
}

/// Does one event match the trigger?
pub fn event_matches(event: &MessageEvent, trigger: &str) -> (r: bool)
    ensures
        r == spec_event_matches(*event, trigger@),
{
    let is_notice = match &event.content.msgtype {
        Some(MessageType::Notice) => true,
        _ => false,
    };
    if !is_notice {
        return false;
    }
    match &event.content.body {
        Some(body) => str_contains(body.as_str(), trigger),
        None => {
            proof {
                reveal_strlit("");
                assert(""@ =~= Seq::<char>::empty());
            }
            str_contains("", trigger)
        },
    }
}

/// Do any of the given events match the trigger?
fn any_event_matches(events: &Vec<MessageEvent>, trigger: &str) -> (r: bool)
    ensures
        r == spec_any_match(events@, trigger@),
{
    let mut i: usize = 0;
    while i < events.len()
        invariant
            i <= events@.len(),
            forall|j: int| 0 <= j < i ==> !spec_event_matches(#[trigger] events@[j], trigger@),
        decreases events@.len() - i,
    {
        if event_matches(&events[i], trigger) {
            return true;
        }
        i += 1;
    }
    false
}

/// The trigger decision for one batch: true exactly when the batch holds,
/// for the target room, at least one notice whose body contains the trigger
/// substring.
pub fn batch_triggers(batch: &EventBatch, room_id: &str, trigger: &str) -> (r: bool)
    ensures
        r == spec_batch_triggers(*batch, room_id@, trigger@),
{
    if batch.rooms.is_none() {
        return false;
    }
    let rooms = batch.rooms.as_ref().unwrap();
    let mut i: usize = 0;
    proof {
        assert(rooms@.subrange(0, rooms@.len() as int) =~= rooms@);
    }
    while i < rooms.len()
        invariant
            i <= rooms@.len(),
            spec_batch_events(*batch, room_id@) == spec_room_events(rooms@, room_id@),
            spec_room_events(rooms@, room_id@) == spec_room_events(
                rooms@.subrange(i as int, rooms@.len() as int),
                room_id@,
            ),
        decreases rooms@.len() - i,
    {
        proof {
            assert(rooms@.subrange(i as int, rooms@.len() as int)[0] == rooms@[i as int]);
        }
        if str_eq(rooms[i].room_id.as_str(), room_id) {
            proof {
                assert(spec_room_events(rooms@, room_id@) == rooms@[i as int].events@);
            }
            return any_event_matches(&rooms[i].events, trigger);
        }
        proof {
            assert(rooms@.subrange(i as int, rooms@.len() as int).drop_first() =~= rooms@.subrange(
                i + 1,
                rooms@.len() as int,
            ));
        }
        i += 1;
    }
    proof {
        assert(rooms@.subrange(rooms@.len() as int, rooms@.len() as int).len() == 0);
    }
    false
}

} // verus!
