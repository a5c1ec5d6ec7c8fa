use druid::widgets::{
    Radio, Updater,
    parse_should_replace, Horizontal, Parse, PrismLifeCycle, PrismUpdate, PrismWrap,
    ProgressBar, Rotated, Vertical,
};

#[test]
fn rotation_swaps_dimensions_on_odd_turns() {
    let r = Rotated::new((), 1);
    assert_eq!(r.flip(10, 20), (20, 10));
    assert_eq!(r.quarter_turns(), 1);
    let r = Rotated::new((), 6);
    assert_eq!(r.flip(10, 20), (10, 20));
    assert_eq!(r.effective_quarter_turns(), 2);
    let (w, h) = r.flip(3, 4);
    assert_eq!(r.flip(w, h), (3, 4));
}

#[test]
fn axes_pick_their_coordinates() {
    let h = Horizontal;
    let v = Vertical;
    assert_eq!(h.major(1, 2), 1);
    assert_eq!(h.minor(1, 2), 2);
    assert_eq!(v.major(1, 2), 2);
    assert_eq!(v.minor(1, 2), 1);
    assert_eq!(h.pack(5, 6), (5, 6));
    assert_eq!(v.pack(5, 6), (6, 5));
    assert_eq!(h.cross(), Vertical);
    assert_eq!(v.cross(), Horizontal);
}

#[test]
fn parse_keeps_text_the_user_is_typing() {
    assert!(!parse_should_replace(false, None));
    assert!(parse_should_replace(true, None));
    assert!(!parse_should_replace(true, Some(true)));
    assert!(parse_should_replace(true, Some(false)));
    let mut p = Parse::new(());
    assert_eq!(p.state(), "");
    let old = p.replace_state("12".to_string());
    assert_eq!(old, "");
    assert_eq!(p.state(), "12");
}

#[test]
fn prism_wrap_tells_child_it_was_added_once() {
    let mut w = PrismWrap::<u8, (), ()>::new((), ());
    assert_eq!(w.update_action(false, true, false), PrismUpdate::Activated { update: false });
    assert!(w.lifecycle(PrismLifeCycle::RouteWidgetAdded));
    assert!(!w.lifecycle(PrismLifeCycle::RouteWidgetAdded));
    assert!(!w.lifecycle(PrismLifeCycle::Other));
    assert_eq!(w.update_action(true, true, true), PrismUpdate::Skip);
    assert_eq!(w.update_action(true, true, false), PrismUpdate::Update);
    assert_eq!(w.update_action(true, false, false), PrismUpdate::Deactivated);
    assert_eq!(w.update_action(false, true, false), PrismUpdate::Activated { update: true });
    assert_eq!(w.update_action(false, false, false), PrismUpdate::Skip);
}

#[test]
fn simple_widget_values() {
    let _ = ProgressBar::new();
}

#[test]
fn radio_selects_on_release_over_it() {
    let r = Radio::new("label", 3u8);
    assert_eq!(*r.variant(), 3);
    let down = Radio::<u8, &str>::mouse_down(false);
    assert_eq!(down.set_active, Some(true));
    assert!(Radio::<u8, &str>::mouse_up(true, false, true).select);
    assert!(!Radio::<u8, &str>::mouse_up(true, false, false).select);
    assert!(!Radio::<u8, &str>::mouse_up(false, false, true).select);
    assert!(Radio::<u8, &str>::mouse_down(true).set_active.is_none());
}

#[test]
fn updater_holds_its_child() {
    let u = Updater::new(5u32, |w: &mut u32| *w += 1);
    assert_eq!(*u.widget(), 5);
}
