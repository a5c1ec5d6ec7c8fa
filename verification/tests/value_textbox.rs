use druid::value_textbox::{
    focus_change_command, route_edit_input, EditInput, EditStep, FocusMove, TextBoxEvent, Validation,
    ValueTextBox,
};

fn editing_box() -> ValueTextBox<i32, (usize, usize)> {
    let mut b: ValueTextBox<i32, (usize, usize)> = ValueTextBox::new();
    b.widget_added("12".to_string());
    let ev: TextBoxEvent<String> = b.begin(12, "12".to_string());
    assert_eq!(ev, TextBoxEvent::Began);
    b
}

#[test]
fn new_box_validates_but_does_not_update_while_editing() {
    let b: ValueTextBox<i32, (usize, usize)> = ValueTextBox::new();
    assert!(!b.is_editing);
    assert!(b.validate_while_editing);
    assert!(!b.update_data_while_editing);
    let b = b.validate_while_editing(false).update_data_while_editing(true);
    assert!(!b.validate_while_editing);
    assert!(b.update_data_while_editing);
}

#[test]
fn complete_writes_the_parsed_value() {
    let mut b = editing_box();
    b.buffer = "013".to_string();
    let (v, ev, select_all) = b.complete::<String>(Ok((13, "13".to_string())), true);
    assert!(!select_all);
    assert_eq!(v, Some(13));
    assert_eq!(ev, TextBoxEvent::Complete);
    assert!(!b.is_editing);
    assert_eq!(b.buffer, "13");
}

#[test]
fn complete_with_bad_text_keeps_editing() {
    let mut b = editing_box();
    b.buffer = "1x".to_string();
    let (v, ev, select_all) = b.complete(Err("not a number".to_string()), true);
    assert!(select_all);
    assert_eq!(v, None);
    let (_, _, select_all) = b.complete(Err("locked".to_string()), false);
    assert!(!select_all);
    assert_eq!(ev, TextBoxEvent::Invalid("not a number".to_string()));
    assert!(b.is_editing);
    assert_eq!(b.buffer, "1x");
    let ev: TextBoxEvent<String> = b.cancel("12".to_string());
    assert_eq!(ev, TextBoxEvent::Cancel);
    assert!(!b.is_editing);
    assert_eq!(b.buffer, "12");
}

#[test]
fn invalid_edit_is_rejected_while_validating() {
    let mut b = editing_box();
    b.buffer = "12a".to_string();
    assert!(b.buffer_changed());
    let v = Validation { text_change: None, selection_change: None, error: Some("bad".to_string()) };
    let (ev, update) = b.apply_validation(v, false, Some((2, 2)));
    assert_eq!(ev, TextBoxEvent::PartiallyInvalid("bad".to_string()));
    assert!(!update);
    assert_eq!(b.buffer, "12");
    assert_eq!(b.force_selection, Some((2, 2)));
}

#[test]
fn invalid_edit_is_kept_without_validation() {
    let mut b = editing_box().validate_while_editing(false);
    b.buffer = "12a".to_string();
    let v = Validation { text_change: None, selection_change: None, error: Some("bad".to_string()) };
    let (_, update) = b.apply_validation(v, false, Some((2, 2)));
    assert!(!update);
    assert_eq!(b.buffer, "12a");
    assert_eq!(b.force_selection, None);
}

#[test]
fn valid_edit_updates_data_only_when_asked() {
    let mut b = editing_box();
    b.buffer = "123".to_string();
    let v: Validation<(usize, usize), String> = Validation { text_change: None, selection_change: None, error: None };
    let (ev, update) = b.apply_validation(v, false, None);
    assert_eq!(ev, TextBoxEvent::Changed);
    assert!(!update);
    let mut b = editing_box().update_data_while_editing(true);
    b.buffer = "123".to_string();
    let v: Validation<(usize, usize), String> =
        Validation { text_change: Some("124".to_string()), selection_change: Some((3, 3)), error: None };
    let (_, update) = b.apply_validation(v, true, None);
    assert!(update);
    assert_eq!(b.buffer, "124");
    assert_eq!(b.force_selection, Some((3, 3)));
    b.record_data(124);
    assert_eq!(b.last_known_data, Some(124));
}

#[test]
fn update_replaces_text_only_when_not_editing() {
    let mut b: ValueTextBox<i32, (usize, usize)> = ValueTextBox::new();
    b.widget_added("1".to_string());
    let (sel, from) = b.update(false, Some("2".to_string()), false);
    assert_eq!(sel, None);
    assert_eq!(from, Some("1".to_string()));
    assert_eq!(b.buffer, "2");
    assert_eq!(b.old_buffer, "2");
    let (_, from) = b.update(false, Some("2".to_string()), false);
    assert_eq!(from, None);
    let (_, from) = b.update(false, None, true);
    assert_eq!(from, Some("2".to_string()));
    let _: TextBoxEvent<()> = b.begin(2, "2".to_string());
    b.buffer = "25".to_string();
    let (_, from) = b.update(false, Some("7".to_string()), false);
    assert_eq!(from, None);
    assert_eq!(b.buffer, "25");
    let (_, from) = b.update(true, None, false);
    assert_eq!(from, Some("2".to_string()));
    assert_eq!(b.old_buffer, "25");
}

#[test]
fn inputs_are_routed_by_editing_state() {
    assert_eq!(route_edit_input(false, EditInput::BeginEditing), EditStep::Begin);
    assert_eq!(route_edit_input(true, EditInput::CompleteEditing), EditStep::CompleteOrCancel);
    assert_eq!(route_edit_input(true, EditInput::Tab), EditStep::Complete { then: FocusMove::Next });
    assert_eq!(route_edit_input(true, EditInput::Backtab), EditStep::Complete { then: FocusMove::Previous });
    assert_eq!(route_edit_input(true, EditInput::Return), EditStep::Complete { then: FocusMove::Resign });
    assert_eq!(route_edit_input(true, EditInput::Cancel), EditStep::Cancel);
    assert_eq!(route_edit_input(false, EditInput::MouseDown), EditStep::BeginThenPassToInner);
    assert_eq!(route_edit_input(true, EditInput::MouseDown), EditStep::PassToInner { validate: true });
    assert_eq!(route_edit_input(true, EditInput::Other { notification: false }), EditStep::PassToInner { validate: true });
    assert_eq!(route_edit_input(true, EditInput::Other { notification: true }), EditStep::PassToInner { validate: false });
    assert_eq!(route_edit_input(false, EditInput::Return), EditStep::PassToInner { validate: false });
    assert_eq!(focus_change_command(false, true), Some(EditInput::BeginEditing));
    assert_eq!(focus_change_command(true, true), None);
    assert_eq!(focus_change_command(true, false), Some(EditInput::CompleteEditing));
}
