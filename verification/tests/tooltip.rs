use druid::ids::INVALID_TIMER;
use druid::event::EventKind;
use druid::tooltip::{overlay_dismisses, TooltipAction, TooltipEvent, TooltipState, TOOLTIP_DELAY_NANOS};

#[test]
fn tooltip_shows_after_the_pointer_rests() {
    let mut s = TooltipState::new();
    let a = s.event(TooltipEvent::MouseMove { hot: true, now: 1_000 });
    assert_eq!(a, TooltipAction::RequestTimer(TOOLTIP_DELAY_NANOS));
    s.timer_started(9);
    assert_eq!(s.event(TooltipEvent::MouseMove { hot: true, now: 2_000 }), TooltipAction::Nothing);
    let a = s.event(TooltipEvent::Timer { token: 9, now: 2_000 + 490_000_000 });
    assert_eq!(a, TooltipAction::Show);
    assert_eq!(s, TooltipState { timer: INVALID_TIMER, last_mouse_move: None });
}

#[test]
fn tooltip_waits_the_rest_of_the_delay() {
    let mut s = TooltipState::new();
    s.event(TooltipEvent::MouseMove { hot: true, now: 0 });
    s.timer_started(3);
    s.event(TooltipEvent::MouseMove { hot: true, now: 300_000_000 });
    let a = s.event(TooltipEvent::Timer { token: 3, now: 500_000_000 });
    assert_eq!(a, TooltipAction::RequestTimer(300_000_000));
    assert_eq!(s.timer, INVALID_TIMER);
    assert_eq!(s.event(TooltipEvent::Timer { token: 4, now: 900_000_000 }), TooltipAction::Nothing);
}

#[test]
fn clicks_and_leaving_cancel_the_tooltip() {
    let mut s = TooltipState::new();
    s.event(TooltipEvent::MouseMove { hot: true, now: 0 });
    s.timer_started(5);
    assert_eq!(s.event(TooltipEvent::MouseDown), TooltipAction::Nothing);
    assert_eq!(s.event(TooltipEvent::Timer { token: 5, now: 900_000_000 }), TooltipAction::Nothing);
    let mut s = TooltipState::new();
    s.event(TooltipEvent::MouseMove { hot: true, now: 0 });
    s.timer_started(5);
    s.event(TooltipEvent::MouseMove { hot: false, now: 10 });
    assert_eq!(s.last_mouse_move, None);
    assert_eq!(s.event(TooltipEvent::Timer { token: 5, now: 900_000_000 }), TooltipAction::Nothing);
    assert_eq!(s.event(TooltipEvent::Other), TooltipAction::Nothing);
}

#[test]
fn overlay_closes_on_pointer_and_key_input() {
    for e in [EventKind::MouseDown, EventKind::MouseUp, EventKind::MouseMove, EventKind::Wheel, EventKind::KeyDown, EventKind::KeyUp] {
        assert!(overlay_dismisses(&e));
    }
    for e in [EventKind::Paste, EventKind::Zoom, EventKind::Timer, EventKind::AnimFrame, EventKind::Command] {
        assert!(!overlay_dismisses(&e));
    }
}
