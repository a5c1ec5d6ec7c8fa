use druid::focus::FocusChange;
use druid::ids::{Counter, WidgetId};
use druid::window::{
    after_event, apply_focus_request, finish_timer, has_text_session, ime_focus_change, record_timer, route_timer,
    text_session_of,
};
use std::collections::HashMap;

fn ids(n: usize) -> Vec<WidgetId> {
    let mut c = Counter::new();
    (0..n).map(|_| WidgetId::next(&mut c)).collect()
}

#[test]
fn timers_route_to_their_widget_once() {
    let w = ids(2);
    let mut timers = HashMap::new();
    record_timer(&mut timers, 7, w[1]);
    assert_eq!(route_timer(&timers, 7), Some(w[1]));
    assert_eq!(route_timer(&timers, 8), None);
    finish_timer(&mut timers, 7);
    assert_eq!(route_timer(&timers, 7), None);
}

#[test]
fn focus_changes_are_reported_only_when_focus_moves() {
    let chain = ids(3);
    let mut focus = Some(chain[0]);
    assert_eq!(apply_focus_request(&mut focus, FocusChange::Next, &chain), Some((Some(chain[0]), Some(chain[1]))));
    assert_eq!(focus, Some(chain[1]));
    assert_eq!(apply_focus_request(&mut focus, FocusChange::Focus(chain[1]), &chain), None);
    assert_eq!(apply_focus_request(&mut focus, FocusChange::Resign, &chain), Some((Some(chain[1]), None)));
    assert_eq!(apply_focus_request(&mut focus, FocusChange::Resign, &chain), None);
    assert_eq!(focus, None);
}

#[test]
fn text_sessions_follow_focus() {
    let w = ids(3);
    let sessions = vec![(10, w[0]), (11, w[2]), (12, w[2])];
    assert!(has_text_session(&sessions, Some(w[0])));
    assert!(!has_text_session(&sessions, Some(w[1])));
    assert!(!has_text_session(&sessions, None));
    assert_eq!(text_session_of(&sessions, Some(w[2])), Some(11));
    assert_eq!(text_session_of(&sessions, Some(w[1])), None);
    assert_eq!(ime_focus_change(true, Some(11)), Some(Some(11)));
    assert_eq!(ime_focus_change(true, None), Some(None));
    assert_eq!(ime_focus_change(false, None), None);
}

#[test]
fn after_event_forgets_the_timer_then_moves_focus_and_text_input() {
    let w = ids(3);
    let mut timers = HashMap::new();
    record_timer(&mut timers, 4, w[0]);
    record_timer(&mut timers, 5, w[1]);
    let mut focus = Some(w[0]);
    let sessions = vec![(20, w[0]), (21, w[1])];
    let mut ime = None;
    let changed = after_event(&mut timers, Some(4), &mut focus, Some(FocusChange::Next), &w, &sessions, &mut ime);
    assert_eq!(route_timer(&timers, 4), None);
    assert_eq!(route_timer(&timers, 5), Some(w[1]));
    assert_eq!(changed, Some((Some(w[0]), Some(w[1]))));
    assert_eq!(ime, Some(Some(21)));
    let changed = after_event(&mut timers, None, &mut focus, Some(FocusChange::Next), &w, &sessions, &mut ime);
    assert_eq!(changed, Some((Some(w[1]), Some(w[2]))));
    assert_eq!(ime, Some(None));
    let changed = after_event(&mut timers, None, &mut focus, Some(FocusChange::Focus(w[2])), &w, &sessions, &mut ime);
    assert_eq!(changed, None);
    assert_eq!(ime, Some(None));
    let changed = after_event(&mut timers, None, &mut focus, None, &w, &sessions, &mut ime);
    assert_eq!(changed, None);
}
