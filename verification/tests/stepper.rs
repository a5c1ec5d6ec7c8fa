use druid::ids::INVALID_TIMER;
use druid::stepper::{
    decrement_outcome, increment_outcome, StepOutcome, StepperInput, StepperState, STEPPER_REPEAT_DELAY_MILLIS,
    STEPPER_REPEAT_MILLIS,
};

#[test]
fn increments_stop_at_max_then_wrap() {
    assert_eq!(increment_outcome(false, false, false), StepOutcome::Next);
    assert_eq!(increment_outcome(false, true, true), StepOutcome::Max);
    assert_eq!(increment_outcome(true, false, true), StepOutcome::Max);
    assert_eq!(increment_outcome(true, true, true), StepOutcome::Min);
    assert_eq!(decrement_outcome(false, true, true), StepOutcome::Min);
    assert_eq!(decrement_outcome(true, false, true), StepOutcome::Min);
    assert_eq!(decrement_outcome(true, true, true), StepOutcome::Max);
    assert_eq!(decrement_outcome(true, true, false), StepOutcome::Next);
}

#[test]
fn held_button_repeats_until_released() {
    let mut s = StepperState::new();
    let a = s.event(StepperInput::MouseDown { lower_half: false }, false);
    assert!(a.increment && !a.decrement);
    assert_eq!(a.request_timer_millis, Some(STEPPER_REPEAT_DELAY_MILLIS));
    s.timer_started(5);
    let a = s.event(StepperInput::Timer(5), false);
    assert!(a.increment);
    assert_eq!(a.request_timer_millis, Some(STEPPER_REPEAT_MILLIS));
    let a = s.event(StepperInput::Timer(4), false);
    assert!(!a.increment);
    let a = s.event(StepperInput::MouseUp, false);
    assert_eq!(a.set_active, Some(false));
    assert_eq!(s.timer_id, INVALID_TIMER);
    assert!(!s.increase_active);
}

#[test]
fn disabled_stepper_ignores_presses() {
    let mut s = StepperState::new();
    let a = s.event(StepperInput::MouseDown { lower_half: true }, true);
    assert!(!a.decrement && a.set_active.is_none());
    let a = s.event(StepperInput::MouseDown { lower_half: true }, false);
    assert!(a.decrement);
    s.timer_started(9);
    let a = s.event(StepperInput::Timer(9), true);
    assert_eq!(a.set_active, Some(false));
    assert!(!a.decrement);
}
