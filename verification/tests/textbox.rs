use druid::ids::INVALID_TIMER;
use druid::textbox::{handle_notification, paste_text, CursorBlink, FocusRequest, TextNotification};

#[test]
fn single_line_paste_takes_the_first_line() {
    assert_eq!(paste_text(false, "ab\r\ncd"), Some("ab".to_string()));
    assert_eq!(paste_text(false, "ab\ncd\nef"), Some("ab".to_string()));
    assert_eq!(paste_text(false, "abc"), Some("abc".to_string()));
    assert_eq!(paste_text(false, "\nabc"), None);
    assert_eq!(paste_text(false, ""), None);
    assert_eq!(paste_text(false, "héllo\nwörld"), Some("héllo".to_string()));
    assert_eq!(paste_text(false, "ab".lines().next().unwrap()), Some("ab".to_string()));
}

#[test]
fn multi_line_paste_takes_everything() {
    assert_eq!(paste_text(true, "a\nb"), Some("a\nb".to_string()));
    assert_eq!(paste_text(true, "\n"), Some("\n".to_string()));
    assert_eq!(paste_text(true, ""), None);
}

#[test]
fn notifications_move_focus_when_tabs_are_handled() {
    let a = handle_notification(TextNotification::Tab, true);
    assert_eq!(a.focus, Some(FocusRequest::Next));
    assert!(a.set_handled && a.request_paint);
    let a = handle_notification(TextNotification::Backtab, false);
    assert_eq!(a.focus, None);
    assert!(!a.set_handled);
    let a = handle_notification(TextNotification::Cancel, false);
    assert_eq!(a.focus, Some(FocusRequest::Resign));
    let a = handle_notification(TextNotification::ScrollTo { after_edit: true }, true);
    assert!(a.scroll_after_layout && !a.scroll_now);
    let a = handle_notification(TextNotification::ScrollTo { after_edit: false }, true);
    assert!(!a.scroll_after_layout && a.scroll_now);
}

#[test]
fn cursor_blinks_while_focused() {
    let mut c = CursorBlink::new();
    let p = c.mouse_down(false, false);
    assert!(p.request_focus && p.start_blink);
    c.reset_blink(3);
    assert!(c.cursor_on);
    let f = c.focus_gained(true, false);
    assert!(!f.select_all, "a click focused it");
    assert!(f.scroll_to_view && f.start_blink);
    assert!(!c.was_focused_from_click);
    assert_eq!(c.timer(3, false, true), (true, true));
    assert!(!c.cursor_on);
    assert_eq!(c.timer(4, false, true), (false, false));
    c.reset_blink(5);
    assert_eq!(c.timer(5, true, true), (true, false));
    assert!(!c.cursor_on);
    let l = c.focus_lost(true, false, true);
    assert!(l.collapse_selection && l.scroll_to_start);
    assert_eq!(c.cursor_timer, INVALID_TIMER);
    let f = c.focus_gained(true, false);
    assert!(f.select_all);
    assert!(!c.should_draw_cursor(false, true));
    c.reset_blink(6);
    assert!(c.should_draw_cursor(true, true));
    assert!(!c.should_draw_cursor(true, false));
    assert!(c.mouse_down(false, true).set_handled);
}
