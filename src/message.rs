//! Timer messages: what each command of the control window publishes.
use vstd::prelude::*;
use crate::event::TimerEvent;
use crate::json::{bool_json, bool_text, decimal, decimal_text, json_string_of, quoted};

verus! {

/// One message on the bus. Its variant decides the event it travels under.
#[derive(Debug, PartialEq, Eq)]
pub enum TimerMessage {
    /// A countdown starts from `time` seconds.
    Start { time: u64, activity: String },
    /// The remaining time and label changed.
    Update { minutes: u32, seconds: u32, activity: String },
    /// The countdown goes back to its initial state.
    Reset,
    /// The countdown reached zero.
    TimeUp,
    /// The display starts or stops flashing.
    FlashState(bool),
}

/// The event a message is published under.
pub open spec fn message_event(m: TimerMessage) -> TimerEvent {
    match m {
        TimerMessage::Start { .. } => TimerEvent::Start,
        TimerMessage::Update { .. } => TimerEvent::Update,
        TimerMessage::Reset => TimerEvent::Reset,
        TimerMessage::TimeUp => TimerEvent::TimeUp,
        TimerMessage::FlashState(_) => TimerEvent::FlashState,
    }
}

/// The JSON object of a start: `{"activity":..,"time":..}`, keys in order.
pub open spec fn start_json(time: nat, activity: Seq<char>) -> Seq<char> {
    "{\"activity\":"@ + json_string_of(activity) + ",\"time\":"@ + decimal(time) + "}"@
}

/// The JSON object of an update: `{"activity":..,"minutes":..,"seconds":..}`.
pub open spec fn update_json(minutes: nat, seconds: nat, activity: Seq<char>) -> Seq<char> {
    "{\"activity\":"@ + json_string_of(activity) + ",\"minutes\":"@ + decimal(minutes)
        + ",\"seconds\":"@ + decimal(seconds) + "}"@
}

/// The JSON text published for a message. A reset and a time-up carry no
/// fields: their payload is the empty JSON string.
pub open spec fn message_json(m: TimerMessage) -> Seq<char> {
    match m {
        TimerMessage::Start { time, activity } => start_json(time as nat, activity@),
        TimerMessage::Update { minutes, seconds, activity } => update_json(
            minutes as nat,
            seconds as nat,
            activity@,
        ),
        TimerMessage::Reset => "\"\""@,
        TimerMessage::TimeUp => "\"\""@,
        TimerMessage::FlashState(b) => bool_json(b),
    }
}

impl TimerMessage {
    /// The event this message is published under.
    pub fn event(&self) -> (r: TimerEvent)
        ensures
            r == message_event(*self),
    {
        match self {
            TimerMessage::Start { .. } => TimerEvent::Start,
            TimerMessage::Update { .. } => TimerEvent::Update,
            TimerMessage::Reset => TimerEvent::Reset,
            TimerMessage::TimeUp => TimerEvent::TimeUp,
            TimerMessage::FlashState(_) => TimerEvent::FlashState,
        }
    }

    /// The JSON text of this message's payload.
    pub fn payload(&self) -> (r: String)
        ensures
            r@ == message_json(*self),
    {
        match self {
            TimerMessage::Start { time, activity } => {
                let mut r = String::from_str("{\"activity\":");
                r.append(quoted(activity.as_str()).as_str());
                r.append(",\"time\":");
                r.append(decimal_text(*time).as_str());
                r.append("}");
                r
            },
            TimerMessage::Update { minutes, seconds, activity } => {
                let mut r = String::from_str("{\"activity\":");
                r.append(quoted(activity.as_str()).as_str());
                r.append(",\"minutes\":");
                r.append(decimal_text(*minutes as u64).as_str());
                r.append(",\"seconds\":");
                r.append(decimal_text(*seconds as u64).as_str());
                r.append("}");
                r
            },
            TimerMessage::Reset => String::from_str("\"\""),
            TimerMessage::TimeUp => String::from_str("\"\""),
            TimerMessage::FlashState(b) => bool_text(*b),
        }
    }
}

/// A countdown of `minutes` and `seconds` starts: the message carries the
/// total in seconds. The total is computed in 64 bits and never overflows.
pub fn start_timer(minutes: u32, seconds: u32, activity: String) -> (r: TimerMessage)
    ensures
        r == (TimerMessage::Start { time: (minutes * 60 + seconds) as u64, activity }),
{
    let time: u64 = minutes as u64 * 60 + seconds as u64;
    TimerMessage::Start { time, activity }
}

/// The remaining time changed: minutes, seconds and label pass through as given.
pub fn update_timer(minutes: u32, seconds: u32, activity: String) -> (r: TimerMessage)
    ensures
        r == (TimerMessage::Update { minutes, seconds, activity }),
{
    TimerMessage::Update { minutes, seconds, activity }
}

/// The countdown is reset; the message has no fields.
pub fn reset_timer() -> (r: TimerMessage)
    ensures
        r == TimerMessage::Reset,
{
    TimerMessage::Reset
}

/// The countdown reached zero; the message has no fields.
pub fn time_up() -> (r: TimerMessage)
    ensures
        r == TimerMessage::TimeUp,
{
    TimerMessage::TimeUp
}

/// Flashing is switched on or off.
pub fn set_flash_state(enable: bool) -> (r: TimerMessage)
    ensures
        r == TimerMessage::FlashState(enable),
{
    TimerMessage::FlashState(enable)
}

} // verus!
