use druid::widget_pod::{
    begin_child_dispatch, end_child_dispatch, merge_child_state, merge_handled, prepare_child_event, propagate_event,
    BaseState, PodWidget,
    PodEvent,
};

#[test]
fn mouse_move_sets_hot_and_reports_change() {
    let mut s = BaseState::new((0, 0, 10, 10));
    let r = prepare_child_event(&mut s, PodEvent::MouseMoved, true, false, false, false, true);
    assert!(s.is_hot());
    assert_eq!(r.hot_changed, Some(true));
    assert!(r.recurse);
    let r = prepare_child_event(&mut s, PodEvent::MouseMoved, true, false, false, false, true);
    assert_eq!(r.hot_changed, None);
    let r = prepare_child_event(&mut s, PodEvent::MouseMoved, false, false, false, false, true);
    assert!(!s.is_hot());
    assert_eq!(r.hot_changed, Some(false));
    assert!(r.recurse);
    let r = prepare_child_event(&mut s, PodEvent::MouseMoved, false, false, false, false, true);
    assert!(!r.recurse);
}

#[test]
fn mouse_down_goes_to_hit_child_unless_another_is_active() {
    let mut s = BaseState::new(());
    let r = prepare_child_event(&mut s, PodEvent::MouseDown, true, false, false, false, true);
    assert!(r.recurse);
    assert_eq!(r.hot_changed, Some(true));
    let mut s = BaseState::new(());
    let r = prepare_child_event(&mut s, PodEvent::MouseDown, true, false, true, false, true);
    assert!(!r.recurse);
    let mut s = BaseState::new(());
    s.has_active = true;
    let r = prepare_child_event(&mut s, PodEvent::MouseUp, false, false, true, false, true);
    assert!(r.recurse);
}

#[test]
fn keys_need_focus_and_focus_goes_to_requester() {
    let mut s = BaseState::new(());
    assert!(!prepare_child_event(&mut s, PodEvent::KeyDown, false, false, false, false, true).recurse);
    s.request_focus = true;
    let r = prepare_child_event(&mut s, PodEvent::FocusChanged(false), false, false, false, false, true);
    assert!(s.has_focus());
    assert!(!s.request_focus);
    assert_eq!(r.child_event, PodEvent::FocusChanged(true));
    assert!(prepare_child_event(&mut s, PodEvent::Paste, false, false, false, false, true).recurse);
    let r = prepare_child_event(&mut s, PodEvent::FocusChanged(true), false, false, false, false, true);
    assert!(!s.has_focus());
    assert!(r.recurse);
    assert_eq!(r.child_event, PodEvent::FocusChanged(false));
}

#[test]
fn anim_frames_timers_and_size_events() {
    let mut s = BaseState::new(());
    s.request_anim = true;
    s.needs_inval = true;
    assert!(prepare_child_event(&mut s, PodEvent::AnimFrame, false, false, false, false, true).recurse);
    assert!(!s.request_anim);
    assert!(!s.needs_inval);
    assert!(!prepare_child_event(&mut s, PodEvent::AnimFrame, false, false, false, false, true).recurse);
    assert!(!prepare_child_event(&mut s, PodEvent::Timer, false, false, false, false, true).recurse);
    s.request_timer = true;
    assert!(prepare_child_event(&mut s, PodEvent::Timer, false, false, false, false, true).recurse);
    assert!(prepare_child_event(&mut s, PodEvent::Size, false, true, false, false, true).recurse);
    assert!(!prepare_child_event(&mut s, PodEvent::Size, false, false, false, false, true).recurse);
    assert!(prepare_child_event(&mut s, PodEvent::Command, false, false, false, false, true).recurse);
}

#[test]
fn requests_flow_up_to_the_parent() {
    let mut parent = BaseState::new(1u8);
    let mut child = BaseState::new(2u8);
    child.is_active = true;
    begin_child_dispatch(&mut child);
    assert!(!child.has_active);
    end_child_dispatch(&mut child);
    assert!(child.has_active);
    child.request_anim = true;
    merge_child_state(&mut parent, &child);
    assert!(parent.has_active && parent.request_anim);
    assert!(!parent.is_active && !parent.request_timer);
    assert_eq!(*parent.layout_rect(), 1);
    parent.set_layout_rect(7);
    assert_eq!(parent.layout_rect, 7);
}

#[test]
fn merging_children_in_either_order_gives_the_same_parent() {
    let mut a = BaseState::new(());
    a.request_anim = true;
    a.is_hot = true;
    let mut b = BaseState::new(());
    b.request_focus = true;
    b.has_active = true;
    let mut p1 = BaseState::new(0u8);
    merge_child_state(&mut p1, &a);
    merge_child_state(&mut p1, &b);
    let mut p2 = BaseState::new(0u8);
    merge_child_state(&mut p2, &b);
    merge_child_state(&mut p2, &a);
    merge_child_state(&mut p2, &a);
    for p in [&p1, &p2] {
        assert!(p.request_anim && p.request_focus && p.has_active && p.is_hot);
        assert!(!p.request_timer && !p.needs_inval && !p.is_active && !p.has_focus);
    }
}

#[test]
fn handled_or_non_recursing_events_stop() {
    let mut s = BaseState::new(());
    s.needs_inval = true;
    s.request_anim = true;
    let r = prepare_child_event(&mut s, PodEvent::AnimFrame, false, false, false, true, true);
    assert!(!r.dispatched && !r.recurse && r.hot_changed.is_none());
    assert!(s.needs_inval && s.request_anim);
    let r = prepare_child_event(&mut s, PodEvent::MouseMoved, true, false, false, false, false);
    assert!(!r.dispatched && !r.recurse);
    assert!(!s.is_hot());
    let r = prepare_child_event(&mut s, PodEvent::AnimFrame, false, false, false, false, true);
    assert!(r.dispatched && r.recurse);
    let mut handled = false;
    merge_handled(&mut handled, false);
    assert!(!handled);
    merge_handled(&mut handled, true);
    assert!(handled);
    merge_handled(&mut handled, false);
    assert!(handled);
}

/// A child that records what it saw, becomes active on a press and handles it.
struct Recorder {
    seen: Vec<(PodEvent, bool)>,
}

impl PodWidget<()> for Recorder {
    fn handle_event(&mut self, state: &mut BaseState<()>, event: PodEvent) -> bool {
        self.seen.push((event, state.has_active));
        if event == PodEvent::MouseDown {
            state.is_active = true;
            state.request_anim = true;
            return true;
        }
        false
    }
}

#[test]
fn propagation_runs_in_order_and_carries_results_up() {
    let mut w = Recorder { seen: vec![] };
    let mut child = BaseState::new(());
    child.has_active = true;
    let mut parent = BaseState::new(0u8);
    let mut handled = false;
    let r = propagate_event(&mut w, &mut child, &mut parent, &mut handled, PodEvent::MouseDown, true, false, false, true);
    assert!(r.dispatched && r.recurse);
    assert_eq!(w.seen, vec![(PodEvent::HotChanged(true), true), (PodEvent::MouseDown, false)]);
    assert!(child.is_active && child.has_active && child.is_hot());
    assert!(parent.has_active && parent.request_anim && parent.is_hot);
    assert!(handled);
    let before = (child.is_active, parent.request_anim);
    let r = propagate_event(&mut w, &mut child, &mut parent, &mut handled, PodEvent::MouseUp, true, false, false, true);
    assert!(!r.dispatched);
    assert_eq!(w.seen.len(), 2);
    assert_eq!(before, (child.is_active, parent.request_anim));
    let mut fresh = false;
    let r = propagate_event(&mut w, &mut child, &mut parent, &mut fresh, PodEvent::KeyDown, false, false, false, true);
    assert!(r.dispatched && !r.recurse);
    assert_eq!(w.seen.len(), 2);
    assert!(!fresh);
}
