use druid::scrollbar::{AnimationClock, ScrollPolicy, ScrollbarFade, ScrollbarInput, DEFAULT_FADE_NANOS};

#[test]
fn clock_waits_for_its_delay() {
    let mut c = AnimationClock { delay: 100, ..AnimationClock::default() };
    assert_eq!(c.duration, DEFAULT_FADE_NANOS);
    assert_eq!(c.tick(0), None);
    assert_eq!(c.tick(60), None);
    assert_eq!(c.elapsed_time, 60);
    assert_eq!(c.tick(60), Some(20));
    assert_eq!(c.elapsed_time, 120);
}

#[test]
fn finished_clock_starts_over_on_reverse() {
    let mut c = AnimationClock::default();
    c.tick(DEFAULT_FADE_NANOS);
    c.finish();
    assert!(c.done);
    c.reverse(false);
    assert_eq!(c.elapsed_time, 0);
    assert!(!c.done);
}

#[test]
fn running_clock_jumps_on_reverse() {
    let mut c = AnimationClock { elapsed_time: 30, delay: 10, done: false, duration: 90 };
    c.reverse(false);
    assert_eq!(c.elapsed_time, 100);
    c.reverse(true);
    assert_eq!(c.elapsed_time, 0);
    assert!(c.done);
    c.reverse(false);
    assert_eq!(c.elapsed_time, 0);
    assert!(!c.done);
    c.tick(5);
    c.reset();
    assert_eq!(c.elapsed_time, 0);
    assert!(!c.done);
}

#[test]
fn hot_bar_shows_and_cold_bar_fades_after_delay() {
    let mut f = ScrollbarFade::new();
    assert!(f.fading_in);
    let a = f.event(ScrollbarInput::HotChanged(false), true, false, 1500);
    assert!(a.request_anim_frame);
    assert!(!f.fading_in && !f.is_hot);
    assert_eq!(f.clock.delay, 1_500_000_000);
    let a = f.event(ScrollbarInput::HotChanged(true), true, false, 1500);
    assert!(!a.request_anim_frame);
    assert!(f.fading_in && f.is_hot);
    assert_eq!(f.clock.delay, 0);
    let a = f.event(ScrollbarInput::AnimFrame(16), true, false, 1500);
    assert!(a.tick && a.request_anim_frame);
    let a = f.event(ScrollbarInput::Wheel { enabled: true }, true, false, 1500);
    assert!(a.scroll_by_wheel);
    let a = f.event(ScrollbarInput::MouseDown, false, false, 1500);
    assert!(!a.handle_pointer);
}

#[test]
fn off_policy_ignores_events() {
    let mut f = ScrollbarFade::new().scroll_policy(ScrollPolicy::Off);
    let before = f;
    let a = f.event(ScrollbarInput::Size, true, false, 10);
    assert!(!a.request_anim_frame);
    assert_eq!(f, before);
    assert_ne!(ScrollPolicy::On, ScrollPolicy::Auto);
}

#[test]
fn showing_twice_is_showing_once() {
    let mut f = ScrollbarFade::new();
    f.fade_out(100, true);
    assert!(!f.fading_in);
    let mut once = f;
    once.show(false);
    let mut twice = once;
    twice.show(true);
    assert_eq!(once, twice);
    assert!(twice.fading_in);
    let mut out_twice = twice;
    out_twice.fade_out(100, false);
    let snapshot = out_twice;
    out_twice.fade_out(100, true);
    assert_eq!(snapshot, out_twice);
}

#[test]
fn only_turning_events_need_a_turnable_fade() {
    let mut f = ScrollbarFade::new();
    assert!(f.handles(ScrollbarInput::MouseMoved, true, u64::MAX));
    let a = f.event(ScrollbarInput::MouseMoved, true, false, u64::MAX);
    assert!(a.handle_pointer);
    assert!(f.handles(ScrollbarInput::Size, true, u64::MAX));
    assert!(!f.handles(ScrollbarInput::HotChanged(false), true, u64::MAX));
    f.clock = AnimationClock { elapsed_time: 250, delay: 0, done: false, duration: 100 };
    assert!(!f.clock.can_reverse_now());
    f.fading_in = false;
    assert!(!f.handles(ScrollbarInput::Size, true, 0));
    assert!(f.handles(ScrollbarInput::HotChanged(false), true, 0));
    f.clock.elapsed_time = 199;
    assert!(f.clock.can_reverse_now());
    assert!(f.handles(ScrollbarInput::Size, true, 0));
}
