//! The session of the relay: it opens the secondary window once, at setup,
//! and from then on mirrors each received event onto that window's bus.
use vstd::prelude::*;
use crate::event::TimerEvent;
use crate::json::bool_json;
use crate::message::{message_event, message_json, TimerMessage};
use crate::relay::{relay, relay_of, relay_view, Relay};

verus! {

/// How the secondary window is opened: its label, the view it routes to,
/// its title, and whether it covers the screen.
#[derive(Debug, PartialEq, Eq)]
pub struct WindowSpec {
    pub label: String,
    pub route: String,
    pub title: String,
    pub fullscreen: bool,
}

/// The settings of the one secondary window: the timer view, full screen.
pub open spec fn is_secondary_window(w: WindowSpec) -> bool {
    &&& w.label@ == "timer"@
    &&& w.route@ == "index.html#/timer"@
    &&& w.title@ == "Countdown Timer by Oriname"@
    &&& w.fullscreen
}

/// The settings of the secondary window.
pub fn secondary_window() -> (r: WindowSpec)
    ensures
        is_secondary_window(r),
{
    WindowSpec {
        label: String::from_str("timer"),
        route: String::from_str("index.html#/timer"),
        title: String::from_str("Countdown Timer by Oriname"),
        fullscreen: true,
    }
}

/// What the host hands the session: the application is set up, or an event
/// arrived on the process-wide bus, with its payload text if it has one.
#[derive(Debug, PartialEq, Eq)]
pub enum Input {
    Setup,
    Received { event: TimerEvent, payload: Option<String> },
}

/// What the host is to do in answer to an input.
#[derive(Debug, PartialEq, Eq)]
pub enum Action {
    /// Open the secondary window with these settings.
    CreateWindow(WindowSpec),
    /// Emit this event on the secondary window's bus, holding the window
    /// exclusively while doing so.
    Emit(Relay),
    /// Nothing to do.
    Ignore,
}

/// The model of an input.
pub enum InputModel {
    Setup,
    Received(TimerEvent, Option<Seq<char>>),
}

/// The model of an action.
pub enum Outcome {
    CreateWindow,
    Emit(TimerEvent, Seq<char>),
    Ignore,
}

/// The model of an input: its payload taken as text.
pub open spec fn input_model(i: Input) -> InputModel {
    match i {
        Input::Setup => InputModel::Setup,
        Input::Received { event, payload } => InputModel::Received(
            event,
            match payload {
                Some(p) => Some(p@),
                None => None,
            },
        ),
    }
}

/// The model of an action: a relay taken as its event and payload text.
pub open spec fn outcome_of(a: Action) -> Outcome {
    match a {
        Action::CreateWindow(_) => Outcome::CreateWindow,
        Action::Emit(r) => Outcome::Emit(relay_view(r).0, relay_view(r).1),
        Action::Ignore => Outcome::Ignore,
    }
}

/// One step of the session from whether it is wired: setup opens the window
/// the first time only; events are mirrored once the session is wired and
/// ignored before.
pub open spec fn step(wired: bool, i: InputModel) -> (bool, Outcome) {
    match i {
        InputModel::Setup => if wired {
            (true, Outcome::Ignore)
        } else {
            (true, Outcome::CreateWindow)
        },
        InputModel::Received(e, p) => if !wired {
            (false, Outcome::Ignore)
        } else {
            match relay_of(e, p) {
                Some((e2, p2)) => (true, Outcome::Emit(e2, p2)),
                None => (true, Outcome::Ignore),
            }
        },
    }
}

/// The outcomes of a run of inputs, one for each, from a given state.
pub open spec fn run(wired: bool, inputs: Seq<InputModel>) -> Seq<Outcome>
    decreases inputs.len(),
{
    if inputs.len() == 0 {
        Seq::<Outcome>::empty()
    } else {
        seq![step(wired, inputs[0]).1] + run(step(wired, inputs[0]).0, inputs.drop_first())
    }
}

/// How many of the outcomes open a window.
pub open spec fn windows_created(outs: Seq<Outcome>) -> nat
    decreases outs.len(),
{
    if outs.len() == 0 {
        0
    } else {
        (if outs[0] is CreateWindow {
            1nat
        } else {
            0nat
        }) + windows_created(outs.drop_first())
    }
}

/// Whether a setup occurs among the inputs.
pub open spec fn has_setup(inputs: Seq<InputModel>) -> bool {
    exists|j: int| 0 <= j < inputs.len() && #[trigger] inputs[j] is Setup
}

/// The relay session. Its view is whether it is wired, that is, whether the
/// secondary window has been opened.
pub struct Session {
    wired: bool,
}

impl View for Session {
    type V = bool;

    closed spec fn view(&self) -> bool {
        self.wired
    }
}

impl Session {
    /// A session before setup.
    pub fn new() -> (r: Session)
        ensures
            !r@,
    {
        Session { wired: false }
    }

    /// Whether the secondary window has been opened.
    pub fn is_wired(&self) -> (r: bool)
        ensures
            r == self@,
    {
        self.wired
    }

    /// Takes one input and says what to do.
    pub fn handle(&mut self, input: Input) -> (r: Action)
        ensures
            (final(self)@, outcome_of(r)) == step(old(self)@, input_model(input)),
            r matches Action::CreateWindow(w) ==> is_secondary_window(w),
    {
        match input {
            Input::Setup => {
                if self.wired {
                    Action::Ignore
                } else {
                    self.wired = true;
                    Action::CreateWindow(secondary_window())
                }
            },
            Input::Received { event, payload } => {
                if !self.wired {
                    return Action::Ignore;
                }
                let r = match payload {
                    Some(p) => relay(event, Some(p.as_str())),
                    None => relay(event, None),
                };
                match r {
                    Some(x) => Action::Emit(x),
                    None => Action::Ignore,
                }
            },
        }
    }
}

/// A wired session never opens another window.
pub proof fn lemma_wired_opens_nothing(inputs: Seq<InputModel>)
    ensures
        windows_created(run(true, inputs)) == 0,
    decreases inputs.len(),
{
    if inputs.len() > 0 {
        lemma_wired_opens_nothing(inputs.drop_first());
        let outs = run(true, inputs);
        assert(outs.drop_first() =~= run(true, inputs.drop_first()));
    }
}

/// The secondary window is opened exactly once in a run that holds a setup,
/// however many events arrive before or after it, and never otherwise.
pub proof fn lemma_window_created_once(inputs: Seq<InputModel>)
    ensures
        windows_created(run(false, inputs)) == (if has_setup(inputs) {
            1nat
        } else {
            0nat
        }),
    decreases inputs.len(),
{
    if inputs.len() > 0 {
        let rest = inputs.drop_first();
        let outs = run(false, inputs);
        if inputs[0] is Setup {
            lemma_wired_opens_nothing(rest);
            assert(outs.drop_first() =~= run(true, rest));
            assert(has_setup(inputs));
        } else {
            lemma_window_created_once(rest);
            assert(outs.drop_first() =~= run(false, rest));
            if has_setup(inputs) {
                let j = choose|j: int| 0 <= j < inputs.len() && #[trigger] inputs[j] is Setup;
                assert(rest[j - 1] is Setup);
            }
            if has_setup(rest) {
                let j = choose|j: int| 0 <= j < rest.len() && #[trigger] rest[j] is Setup;
                assert(inputs[j + 1] is Setup);
            }
        }
    }
}

/// A run yields one outcome for each input, and the outcome at each place is
/// the step taken from the state that the inputs before it leave.
pub proof fn lemma_run_at(wired: bool, inputs: Seq<InputModel>, i: int)
    requires
        0 <= i < inputs.len(),
    ensures
        run(wired, inputs).len() == inputs.len(),
        run(wired, inputs)[i] == step(wired || has_setup(inputs.take(i)), inputs[i]).1,
    decreases inputs.len(),
{
    lemma_run_len(wired, inputs);
    let rest = inputs.drop_first();
    let w2 = step(wired, inputs[0]).0;
    if i > 0 {
        lemma_run_at(w2, rest, i - 1);
        let pre = inputs.take(i);
        let pre2 = rest.take(i - 1);
        assert(w2 == (wired || inputs[0] is Setup));
        if inputs[0] is Setup {
            assert(pre[0] is Setup);
        }
        if has_setup(pre) {
            let j = choose|j: int| 0 <= j < pre.len() && #[trigger] pre[j] is Setup;
            if j > 0 {
                assert(pre2[j - 1] is Setup);
            }
        }
        if has_setup(pre2) {
            let j = choose|j: int| 0 <= j < pre2.len() && #[trigger] pre2[j] is Setup;
            assert(pre[j + 1] is Setup);
        }
        assert(has_setup(pre) == (inputs[0] is Setup || has_setup(pre2)));
    } else {
        assert(!has_setup(inputs.take(0)));
    }
}

/// A run yields one outcome for each input.
proof fn lemma_run_len(wired: bool, inputs: Seq<InputModel>)
    ensures
        run(wired, inputs).len() == inputs.len(),
    decreases inputs.len(),
{
    if inputs.len() > 0 {
        lemma_run_len(step(wired, inputs[0]).0, inputs.drop_first());
    }
}

/// Once the window is open, each event that carries what it needs yields
/// exactly one emission on the secondary bus, the relay of that event.
pub proof fn lemma_each_event_relayed_once(inputs: Seq<InputModel>, i: int)
    requires
        0 <= i < inputs.len(),
        has_setup(inputs.take(i)),
        inputs[i] matches InputModel::Received(e, p) && relay_of(e, p) is Some,
    ensures
        run(false, inputs).len() == inputs.len(),
        inputs[i] matches InputModel::Received(e, p) && run(false, inputs)[i] == Outcome::Emit(
            relay_of(e, p).unwrap().0,
            relay_of(e, p).unwrap().1,
        ),
{
    lemma_run_at(false, inputs, i);
}

/// Every message that a command publishes is mirrored under its own event:
/// received with the message's payload, it is relayed with that payload, or
/// with the empty string for a reset and a time-up.
pub proof fn lemma_published_message_relayed(m: TimerMessage)
    ensures
        relay_of(message_event(m), Some(message_json(m))) == Some(
            (
                message_event(m),
                if m is Reset || m is TimeUp {
                    Seq::<char>::empty()
                } else {
                    message_json(m)
                },
            ),
        ),
{
}

/// A flash state reaches the secondary bus under its own name, with the JSON
/// literal of the same boolean, and the two booleans give different payloads.
pub proof fn lemma_flash_state_relayed(enable: bool)
    ensures
        relay_of(message_event(TimerMessage::FlashState(enable)), Some(message_json(TimerMessage::FlashState(enable))))
            == Some((TimerEvent::FlashState, bool_json(enable))),
        bool_json(true) != bool_json(false),
{
    reveal_strlit("true");
    reveal_strlit("false");
    assert(bool_json(true).len() != bool_json(false).len());
}

} // verus!
