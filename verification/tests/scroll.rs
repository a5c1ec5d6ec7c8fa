use druid::scroll::{BarHeldState, BarHits, BarHoveredState, ScrollBars, ScrollInput};

fn hits(v: bool, h: bool) -> BarHits<i32> {
    BarHits { vertical: v, horizontal: h, vertical_grab: 7, horizontal_grab: 9 }
}

#[test]
fn pressing_a_bar_grabs_it_and_releasing_lets_go() {
    let mut bars: ScrollBars<i32> = ScrollBars::new();
    let a = bars.event(ScrollInput::MouseMove, hits(true, false));
    assert!(a.show_bars && a.request_paint && !a.forward_to_child);
    assert_eq!(bars.hovered, BarHoveredState::Vertical);
    let a = bars.event(ScrollInput::MouseDown, hits(true, false));
    assert_eq!(a.set_active, Some(true));
    assert_eq!(bars.held, BarHeldState::Vertical(7));
    assert!(bars.are_held());
    let a = bars.event(ScrollInput::MouseMove, hits(false, false));
    assert!(a.drag && !a.forward_to_child);
    let a = bars.event(ScrollInput::MouseUp, hits(false, false));
    assert_eq!(a.set_active, Some(false));
    assert!(a.reset_fade);
    assert_eq!(bars.held, BarHeldState::NotHeld);
    assert_eq!(bars.hovered, BarHoveredState::NotHovered);
}

#[test]
fn horizontal_bar_is_grabbed_when_vertical_is_missed() {
    let mut bars: ScrollBars<i32> = ScrollBars::new();
    bars.event(ScrollInput::MouseDown, hits(false, true));
    assert_eq!(bars.held, BarHeldState::Horizontal(9));
}

#[test]
fn other_events_reach_the_child_and_fade_timer_animates() {
    let mut bars: ScrollBars<i32> = ScrollBars::new();
    bars.fade_timer_started(42);
    assert!(!bars.may_fade());
    let a = bars.event(ScrollInput::Timer(41), hits(false, false));
    assert!(a.forward_to_child && !a.request_anim_frame);
    let a = bars.event(ScrollInput::Timer(42), hits(false, false));
    assert!(a.forward_to_child && a.request_anim_frame);
    assert!(bars.may_fade());
    let a = bars.event(ScrollInput::Wheel, hits(true, true));
    assert!(a.forward_to_child && a.try_wheel_scroll);
}

#[test]
fn leaving_a_bar_starts_the_fade() {
    let mut bars: ScrollBars<i32> = ScrollBars::new();
    bars.event(ScrollInput::MouseMove, hits(false, true));
    assert_eq!(bars.hovered, BarHoveredState::Horizontal);
    let a = bars.event(ScrollInput::MouseMove, hits(false, false));
    assert!(a.reset_fade && a.forward_to_child);
    assert_eq!(bars.hovered, BarHoveredState::NotHovered);
}
