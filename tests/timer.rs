use countdown_timer::event::TimerEvent;
use countdown_timer::json::{bool_text, decimal_text, quoted};
use countdown_timer::message::{reset_timer, set_flash_state, start_timer, time_up, update_timer, TimerMessage};
use countdown_timer::relay::{relay, Relay};
use countdown_timer::session::{secondary_window, Action, Input, Session};

#[test]
fn start_timer_publishes_total_seconds() {
    let m = start_timer(2, 5, "Break".to_string());
    assert_eq!(m, TimerMessage::Start { time: 125, activity: "Break".to_string() });
    assert_eq!(m.event(), TimerEvent::Start);
    assert_eq!(m.payload(), "{\"activity\":\"Break\",\"time\":125}");
}

#[test]
fn start_timer_zero() {
    let m = start_timer(0, 0, String::new());
    assert_eq!(m.payload(), "{\"activity\":\"\",\"time\":0}");
}

#[test]
fn start_timer_largest_inputs_do_not_overflow() {
    let m = start_timer(u32::MAX, u32::MAX, "x".to_string());
    let expected: u64 = u32::MAX as u64 * 61;
    assert_eq!(m, TimerMessage::Start { time: expected, activity: "x".to_string() });
    assert_eq!(m.payload(), format!("{{\"activity\":\"x\",\"time\":{}}}", expected));
}

#[test]
fn update_timer_passes_fields_through() {
    let m = update_timer(3, 75, "Focus".to_string());
    assert_eq!(m, TimerMessage::Update { minutes: 3, seconds: 75, activity: "Focus".to_string() });
    assert_eq!(m.event(), TimerEvent::Update);
    assert_eq!(m.payload(), "{\"activity\":\"Focus\",\"minutes\":3,\"seconds\":75}");
}

#[test]
fn reset_and_time_up_have_no_fields() {
    assert_eq!(reset_timer(), TimerMessage::Reset);
    assert_eq!(time_up(), TimerMessage::TimeUp);
    assert_eq!(reset_timer().payload(), "\"\"");
    assert_eq!(time_up().payload(), "\"\"");
    assert_eq!(reset_timer().event(), TimerEvent::Reset);
    assert_eq!(time_up().event(), TimerEvent::TimeUp);
}

#[test]
fn flash_state_payloads() {
    assert_eq!(set_flash_state(true), TimerMessage::FlashState(true));
    assert_eq!(set_flash_state(true).payload(), "true");
    assert_eq!(set_flash_state(false).payload(), "false");
    assert_eq!(set_flash_state(false).event(), TimerEvent::FlashState);
}

#[test]
fn flash_state_relays_same_boolean() {
    for enable in [true, false] {
        let m = set_flash_state(enable);
        let text = m.payload();
        let r = relay(m.event(), Some(text.as_str())).unwrap();
        assert_eq!(r.event, TimerEvent::FlashState);
        assert_eq!(r.payload, if enable { "true" } else { "false" });
    }
}

#[test]
fn event_names() {
    assert_eq!(TimerEvent::Start.name(), "start_timer");
    assert_eq!(TimerEvent::Update.name(), "update_timer");
    assert_eq!(TimerEvent::Reset.name(), "reset_timer");
    assert_eq!(TimerEvent::TimeUp.name(), "time_up");
    assert_eq!(TimerEvent::FlashState.name(), "set_flash_state");
}

#[test]
fn activity_is_escaped() {
    assert_eq!(quoted("Say \"hi\""), "\"Say \\\"hi\\\"\"");
    assert_eq!(quoted("a\nb"), "\"a\\nb\"");
    assert_eq!(quoted("\t\r\u{8}\u{c}"), "\"\\t\\r\\b\\f\"");
    assert_eq!(quoted("\u{1}\u{1f}"), "\"\\u0001\\u001f\"");
    assert_eq!(quoted("é/ü"), "\"é/ü\"");
    let m = start_timer(1, 0, "a\\b".to_string());
    assert_eq!(m.payload(), "{\"activity\":\"a\\\\b\",\"time\":60}");
}

#[test]
fn decimal_and_bool_text() {
    assert_eq!(decimal_text(0), "0");
    assert_eq!(decimal_text(9), "9");
    assert_eq!(decimal_text(10), "10");
    assert_eq!(decimal_text(1234567890), "1234567890");
    assert_eq!(decimal_text(u64::MAX), "18446744073709551615");
    assert_eq!(bool_text(true), "true");
    assert_eq!(bool_text(false), "false");
}

#[test]
fn start_is_mirrored_as_start() {
    let r = relay(TimerEvent::Start, Some("{\"activity\":\"Break\",\"time\":125}")).unwrap();
    assert_eq!(r, Relay { event: TimerEvent::Start, payload: "{\"activity\":\"Break\",\"time\":125}".to_string() });
}

#[test]
fn update_is_mirrored_unchanged() {
    let r = relay(TimerEvent::Update, Some("{\"minutes\":1}")).unwrap();
    assert_eq!(r.event, TimerEvent::Update);
    assert_eq!(r.payload, "{\"minutes\":1}");
}

#[test]
fn events_without_payload_are_dropped() {
    assert_eq!(relay(TimerEvent::Start, None), None);
    assert_eq!(relay(TimerEvent::Update, None), None);
    assert_eq!(relay(TimerEvent::FlashState, None), None);
}

#[test]
fn reset_and_time_up_mirror_empty_payload() {
    assert_eq!(relay(TimerEvent::Reset, None), Some(Relay { event: TimerEvent::Reset, payload: String::new() }));
    assert_eq!(relay(TimerEvent::TimeUp, Some("\"\"")), Some(Relay { event: TimerEvent::TimeUp, payload: String::new() }));
}

#[test]
fn secondary_window_settings() {
    let w = secondary_window();
    assert_eq!(w.label, "timer");
    assert_eq!(w.route, "index.html#/timer");
    assert_eq!(w.title, "Countdown Timer by Oriname");
    assert!(w.fullscreen);
}

#[test]
fn window_is_created_once() {
    let mut s = Session::new();
    assert!(!s.is_wired());
    let before = s.handle(Input::Received { event: TimerEvent::Reset, payload: None });
    assert_eq!(before, Action::Ignore);
    assert_eq!(s.handle(Input::Setup), Action::CreateWindow(secondary_window()));
    assert!(s.is_wired());
    let mut created = 1;
    for _ in 0..5 {
        let a = s.handle(Input::Received { event: TimerEvent::TimeUp, payload: None });
        assert!(matches!(a, Action::Emit(_)));
        if matches!(s.handle(Input::Setup), Action::CreateWindow(_)) {
            created += 1;
        }
    }
    assert_eq!(created, 1);
}

#[test]
fn each_published_event_is_relayed_once() {
    let mut s = Session::new();
    assert!(matches!(s.handle(Input::Setup), Action::CreateWindow(_)));
    let messages = vec![
        start_timer(2, 5, "Break".to_string()),
        update_timer(2, 4, "Break".to_string()),
        set_flash_state(true),
        time_up(),
        reset_timer(),
    ];
    let expected = vec![
        TimerEvent::Start,
        TimerEvent::Update,
        TimerEvent::FlashState,
        TimerEvent::TimeUp,
        TimerEvent::Reset,
    ];
    for (m, want) in messages.iter().zip(expected) {
        let text = m.payload();
        let a = s.handle(Input::Received { event: m.event(), payload: Some(text.clone()) });
        match a {
            Action::Emit(r) => {
                assert_eq!(r.event, want);
                if want == TimerEvent::Reset || want == TimerEvent::TimeUp {
                    assert_eq!(r.payload, "");
                } else {
                    assert_eq!(r.payload, text);
                }
            }
            other => panic!("expected one emission, got {:?}", other),
        }
    }
}
