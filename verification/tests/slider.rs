use druid::slider::{slider_event, KnobStyle, PointerKind, RangeKnobs, RangePointer, SliderKnob};

#[test]
fn knob_grabbed_on_hit_and_released_on_up() {
    let mut k = SliderKnob::default();
    let a = k.handle_input(PointerKind::MouseDown, true, true, false);
    assert!(a.grab && k.active);
    let a = k.handle_input(PointerKind::MouseMove, true, true, false);
    assert!(a.set_value && a.request_paint);
    let a = k.handle_input(PointerKind::MouseUp, true, true, false);
    assert!(a.set_value && !k.active);
    assert_eq!(KnobStyle::default(), KnobStyle::Circle);
}

#[test]
fn press_away_from_knob_jumps() {
    let mut k = SliderKnob::default();
    let a = slider_event(&mut k, PointerKind::MouseDown, false, true, false).unwrap();
    assert!(a.jump_to_press && a.set_active);
    assert!(k.active && k.hovered);
    assert_eq!(slider_event(&mut k, PointerKind::MouseUp, false, true, true), None);
}

#[test]
fn range_slider_holds_one_knob() {
    let mut knobs = RangeKnobs::default();
    let p = RangePointer { kind: PointerKind::MouseDown, left_hit: true, right_hit: true, hot: true, nearer_left: false };
    let a = knobs.event(p, false).unwrap();
    assert!(knobs.left.active && !knobs.right.active);
    assert!(a.set_active && a.right.is_none());
    let up = RangePointer { kind: PointerKind::MouseUp, ..p };
    knobs.event(up, false);
    assert!(!knobs.left.active && !knobs.right.active);
    let miss = RangePointer { kind: PointerKind::MouseDown, left_hit: false, right_hit: false, hot: true, nearer_left: false };
    let a = knobs.event(miss, false).unwrap();
    assert!(a.jump_right && !a.jump_left);
    assert!(knobs.right.active && !knobs.left.active);
}
