use druid::switch::{Switch, SwitchInput};

#[test]
fn click_toggles_and_drag_follows_knob() {
    let mut s = Switch::new();
    let mut value = false;
    s.event(SwitchInput::MouseDown, &mut value);
    let a = s.event(SwitchInput::MouseUp { knob_past_middle: false }, &mut value);
    assert!(value);
    assert!(a.request_anim_frame && s.animation_in_progress);
    s.event(SwitchInput::MouseDown, &mut value);
    s.event(SwitchInput::MouseMoved { active: true, hot: true, over_knob: true }, &mut value);
    assert!(s.knob_dragged && s.knob_hovered);
    s.event(SwitchInput::MouseUp { knob_past_middle: true }, &mut value);
    assert!(value);
    assert!(!s.knob_dragged);
    let a = s.event(SwitchInput::AnimFrame { knob_between_ends: false }, &mut value);
    assert!(a.move_knob && !a.request_anim_frame);
    assert!(!s.animation_in_progress);
}
