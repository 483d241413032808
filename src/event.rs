//! The named events that the timer publishes and mirrors.
use vstd::prelude::*;

verus! {

/// The five events of the timer, each published under a fixed name.
#[derive(Clone, Copy, Debug, PartialEq, Eq, Structural)]
pub enum TimerEvent {
    Start,
    Update,
    Reset,
    TimeUp,
    FlashState,
}

/// The name under which an event travels on an event bus.
pub open spec fn event_name(e: TimerEvent) -> Seq<char> {
    match e {
        TimerEvent::Start => "start_timer"@,
        TimerEvent::Update => "update_timer"@,
        TimerEvent::Reset => "reset_timer"@,
        TimerEvent::TimeUp => "time_up"@,
        TimerEvent::FlashState => "set_flash_state"@,
    }
}

impl TimerEvent {
    /// The bus name of this event.
    pub fn name(&self) -> (r: &'static str)
        ensures
            r@ == event_name(*self),
    {
        match self {
            TimerEvent::Start => "start_timer",
            TimerEvent::Update => "update_timer",
            TimerEvent::Reset => "reset_timer",
            TimerEvent::TimeUp => "time_up",
            TimerEvent::FlashState => "set_flash_state",
        }
    }
}

} // verus!
