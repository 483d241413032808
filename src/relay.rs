//! The relay from the process-wide bus to the secondary window: which event,
//! with which payload, each received event becomes on that window's bus.
use vstd::prelude::*;
use crate::event::TimerEvent;

verus! {

/// One event to emit on the secondary window's bus. Its payload is handed to
/// the bus as a string.
#[derive(Debug, PartialEq, Eq)]
pub struct Relay {
    pub event: TimerEvent,
    pub payload: String,
}

/// The event and payload mirrored for an event received with `payload`, if
/// any. Each event is mirrored under its own name; events that carry data
/// pass their payload through and are dropped when it is missing; a reset
/// and a time-up carry the empty string.
pub open spec fn relay_of(event: TimerEvent, payload: Option<Seq<char>>) -> Option<(TimerEvent, Seq<char>)> {
    match event {
        TimerEvent::Start => match payload {
            Some(p) => Some((TimerEvent::Start, p)),
            None => None,
        },
        TimerEvent::Update => match payload {
            Some(p) => Some((TimerEvent::Update, p)),
            None => None,
        },
        TimerEvent::FlashState => match payload {
            Some(p) => Some((TimerEvent::FlashState, p)),
            None => None,
        },
        TimerEvent::Reset => Some((TimerEvent::Reset, Seq::<char>::empty())),
        TimerEvent::TimeUp => Some((TimerEvent::TimeUp, Seq::<char>::empty())),
    }
}

/// The text of a payload that may be missing.
pub open spec fn text_of(payload: Option<&str>) -> Option<Seq<char>> {
    match payload {
        Some(p) => Some(p@),
        None => None,
    }
}

/// The view of a relay, as a pair of event and payload text.
pub open spec fn relay_view(r: Relay) -> (TimerEvent, Seq<char>) {
    (r.event, r.payload@)
}

/// What to mirror onto the secondary window for `event` received with `payload`.
pub fn relay(event: TimerEvent, payload: Option<&str>) -> (r: Option<Relay>)
    ensures
        r matches Some(x) ==> relay_of(event, text_of(payload)) == Some(relay_view(x)),
        r is None ==> relay_of(event, text_of(payload)) is None,
{
    match event {
        TimerEvent::Start => match payload {
            Some(p) => Some(Relay { event: TimerEvent::Start, payload: String::from_str(p) }),
            None => None,
        },
        TimerEvent::Update => match payload {
            Some(p) => Some(Relay { event: TimerEvent::Update, payload: String::from_str(p) }),
            None => None,
        },
        TimerEvent::FlashState => match payload {
            Some(p) => Some(Relay { event: TimerEvent::FlashState, payload: String::from_str(p) }),
            None => None,
        },
        TimerEvent::Reset => Some(Relay { event: TimerEvent::Reset, payload: String::new() }),
        TimerEvent::TimeUp => Some(Relay { event: TimerEvent::TimeUp, payload: String::new() }),
    }
}

} // verus!
