use druid::event::{EventKind, LifeCycleKind};
use druid::tabs::{
    advance_transition, ensure_for_tabs, find_tab_index, hidden_should_receive_event,
    hidden_should_receive_lifecycle, TabInfo, TabsEdge, TabsScopePolicy, TabsTransition,
    TabsTransitionState, DEFAULT_SLIDE_NANOS, update_hot_tab,
};

#[test]
fn slide_transition_direction_follows_selection() {
    let t = TabsTransition::Slide(100);
    let s = t.tab_changed(1, 3).unwrap();
    assert_eq!(s, TabsTransitionState { previous_idx: 1, current_time: 0, duration: 100, increasing: true });
    let s = t.tab_changed(3, 1).unwrap();
    assert!(!s.increasing);
    assert_eq!(TabsTransition::Instant.tab_changed(0, 1), None);
    assert_eq!(TabsTransition::default(), TabsTransition::Slide(250_000_000));
    assert_eq!(DEFAULT_SLIDE_NANOS, 250_000_000);
    assert_eq!(TabsEdge::default(), TabsEdge::Leading);
}

#[test]
fn transition_runs_until_its_duration() {
    let mut state = Some(TabsTransitionState::new(0, 100, true));
    let r = advance_transition(&mut state, 60);
    assert!(r.request_anim_frame && r.request_paint);
    assert_eq!(state.unwrap().current_time, 60);
    assert!(state.unwrap().live());
    let r = advance_transition(&mut state, 40);
    assert!(!r.request_anim_frame && r.request_paint);
    assert_eq!(state, None);
    let r = advance_transition(&mut state, 10);
    assert!(!r.request_anim_frame && !r.request_paint);
}

#[test]
fn hidden_tabs_get_only_non_input_events() {
    assert!(hidden_should_receive_event(&EventKind::Timer));
    assert!(hidden_should_receive_event(&EventKind::AnimFrame));
    assert!(hidden_should_receive_event(&EventKind::WindowConnected));
    assert!(!hidden_should_receive_event(&EventKind::MouseDown));
    assert!(!hidden_should_receive_event(&EventKind::KeyUp));
    assert!(!hidden_should_receive_event(&EventKind::Zoom));
    assert!(hidden_should_receive_lifecycle(&LifeCycleKind::WidgetAdded));
    assert!(hidden_should_receive_lifecycle(&LifeCycleKind::Internal));
    assert!(!hidden_should_receive_lifecycle(&LifeCycleKind::HotChanged));
    assert!(!hidden_should_receive_lifecycle(&LifeCycleKind::Size));
}

#[test]
fn ensure_for_tabs_keeps_existing_and_makes_new() {
    let mut contents: Vec<(usize, String)> = vec![(1, "one".to_string()), (2, "two".to_string()), (1, "uno".to_string())];
    let tabs = vec![1, 3, 1, 2];
    let kept = ensure_for_tabs(&mut contents, &tabs, |k| format!("new{}", k));
    assert_eq!(
        contents,
        vec![
            (1, "uno".to_string()),
            (3, "new3".to_string()),
            (1, "new1".to_string()),
            (2, "two".to_string()),
        ]
    );
    assert_eq!(kept, vec![0, 3]);
}

#[test]
fn ensure_for_tabs_with_unchanged_tabs_keeps_everything() {
    let mut contents: Vec<(usize, u32)> = vec![(4, 40), (5, 50), (6, 60)];
    let tabs = vec![4, 5, 6];
    let kept = ensure_for_tabs(&mut contents, &tabs, |_| 0);
    assert_eq!(contents, vec![(4, 40), (5, 50), (6, 60)]);
    assert_eq!(kept, vec![0, 1, 2]);
    let kept = ensure_for_tabs(&mut contents, &vec![], |_| 0);
    assert!(contents.is_empty());
    assert!(kept.is_empty());
}

#[test]
fn find_tab_index_picks_first_tab_reaching_position() {
    let edges = vec![100, 250, 250, 400];
    assert_eq!(find_tab_index(&edges, 0), Some(0));
    assert_eq!(find_tab_index(&edges, 100), Some(0));
    assert_eq!(find_tab_index(&edges, 101), Some(1));
    assert_eq!(find_tab_index(&edges, 250), Some(1));
    assert_eq!(find_tab_index(&edges, 399), Some(3));
    assert_eq!(find_tab_index(&edges, 401), None);
    assert_eq!(find_tab_index(&vec![], 5), None);
}

#[test]
fn tab_info_and_scope_policy_hold_their_parts() {
    let info = TabInfo::new("Connection", true);
    assert_eq!(info.name, "Connection");
    assert!(info.can_close);
    let p = TabsScopePolicy::new('p', 2);
    assert_eq!(p.tabs_from_data, 'p');
    assert_eq!(p.selected, 2);
}

#[test]
fn hot_tab_follows_mouse_while_bar_is_hot() {
    let mut hot = None;
    assert!(update_hot_tab(&mut hot, true, Some(2)));
    assert_eq!(hot, Some(2));
    assert!(!update_hot_tab(&mut hot, true, Some(2)));
    assert!(update_hot_tab(&mut hot, false, Some(2)));
    assert_eq!(hot, None);
    assert!(!update_hot_tab(&mut hot, true, None));
}
