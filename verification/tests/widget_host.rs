use druid::shell_handler::WindowConnection;
use druid::widget_host::{ButtonState, LayoutHost, LayoutState, WidgetHost, WidgetState};

#[test]
fn focus_flows_up_and_is_reset_before_dispatch() {
    let mut parent = WidgetState::new();
    let mut child = WidgetState::new();
    child.set_mouse_focus(true);
    assert!(child.has_mouse_focus());
    parent.merge_up(&child);
    assert!(parent.child_mouse_focus);
    assert!(parent.has_mouse_focus());
    assert!(!parent.mouse_focus);
    assert!(!parent.wants_key_events());
    child.keyboard_focus = true;
    parent.merge_up(&child);
    assert!(parent.wants_key_events());
    parent.begin_child_dispatch();
    assert!(!parent.has_mouse_focus());
    assert!(!parent.wants_key_events());
}

#[test]
fn update_requests_are_taken_once() {
    let mut s = WidgetState::new();
    assert!(!s.take_update_request());
    s.request_update();
    assert!(s.take_update_request());
    assert!(!s.take_update_request());
}

#[test]
fn layout_host_needs_origin_after_layout() {
    let mut h = LayoutHost::new("child", (0.0, 0.0), (0.0, 0.0));
    assert!(!h.can_paint());
    h.set_origin((4.0, 2.0));
    assert!(h.can_paint());
    assert_eq!(h.origin(), (4.0, 2.0));
    h.record_layout((30.0, 10.0));
    assert!(!h.can_paint());
    assert_eq!(h.size(), (30.0, 10.0));
    h.set_origin((1.0, 1.0));
    assert!(h.can_paint());
    assert_eq!(*h.widget(), "child");
    let mut w = WidgetHost::new(5, (0, 0), (0, 0));
    w.set_origin((3, 3));
    assert!(w.child.can_paint());
    assert_eq!(w.state, WidgetState::new());
    assert!(!LayoutState::default().hovered);
}

#[test]
fn button_clicks_after_press_and_release_inside() {
    let mut state = WidgetState::new();
    let mut b = ButtonState::default();
    assert!(b.mouse_move(true).request_paint);
    assert!(!b.mouse_move(true).request_paint);
    let r = ButtonState::mouse_down(&mut state, true, 1);
    assert!(r.request_paint && state.mouse_focus);
    let r = ButtonState::mouse_up(&mut state, true, true);
    assert!(r.clicked && r.request_paint && !state.mouse_focus);
    let r = ButtonState::mouse_up(&mut state, true, true);
    assert!(!r.clicked && !r.request_paint);
}

#[test]
fn button_ignores_double_clicks_and_release_outside() {
    let mut state = WidgetState::new();
    let r = ButtonState::mouse_down(&mut state, true, 2);
    assert!(!r.request_paint && !state.mouse_focus);
    let r = ButtonState::mouse_down(&mut state, false, 1);
    assert!(!r.request_paint && !state.mouse_focus);
    ButtonState::mouse_down(&mut state, true, 1);
    let r = ButtonState::mouse_up(&mut state, true, false);
    assert!(!r.clicked && r.request_paint && !state.mouse_focus);
}

#[test]
fn window_connection_protocol() {
    let mut c: WindowConnection<u32> = WindowConnection::new();
    assert!(!c.is_connected());
    assert_eq!(c.window(), None);
    c.connect(7);
    assert!(c.is_connected());
    assert_eq!(c.window(), Some(&7));
    c.destroy();
    assert!(!c.is_connected());
    assert_eq!(c.window(), None);
}
