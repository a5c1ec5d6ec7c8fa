use vstd::prelude::*;
use crate::ids::INVALID_TIMER;

verus! {

/// Delay, in milliseconds, until a held button starts to repeat.
pub const STEPPER_REPEAT_DELAY_MILLIS: u64 = 500;

/// Delay, in milliseconds, between the repeats of a held button.
pub const STEPPER_REPEAT_MILLIS: u64 = 200;

/// The value a step leaves.
#[derive(Debug, Clone, Copy, PartialEq, Eq, Structural)]
pub enum StepOutcome {
    /// The value moved by one step.
    Next,
    /// The value is the minimum.
    Min,
    /// The value is the maximum.
    Max,
}

/// The value after an increment. `was_at_max` says whether the value
/// already stood at the maximum, `passes_max` whether one step more goes
/// beyond it.
///
/// A step that stays within the range is taken. Without wraparound a step
/// beyond the maximum stops at the maximum; with it, a value below the
/// maximum becomes the maximum and a value at the maximum becomes the
/// minimum.
pub fn increment_outcome(wrap: bool, was_at_max: bool, passes_max: bool) -> (o: StepOutcome)
    ensures
        !passes_max ==> o == StepOutcome::Next,
        passes_max && !wrap ==> o == StepOutcome::Max,
        passes_max && wrap && !was_at_max ==> o == StepOutcome::Max,
        passes_max && wrap && was_at_max ==> o == StepOutcome::Min,
{
    if wrap && was_at_max && passes_max {
        StepOutcome::Min
    } else if passes_max {
        StepOutcome::Max
    } else {
        StepOutcome::Next
    }
}

/// The value after a decrement, the mirror image of
/// [`increment_outcome`]: a value above the minimum stops at the minimum,
/// and with wraparound a value at the minimum becomes the maximum.
pub fn decrement_outcome(wrap: bool, was_at_min: bool, passes_min: bool) -> (o: StepOutcome)
    ensures
        !passes_min ==> o == StepOutcome::Next,
        passes_min && !wrap ==> o == StepOutcome::Min,
        passes_min && wrap && !was_at_min ==> o == StepOutcome::Min,
        passes_min && wrap && was_at_min ==> o == StepOutcome::Max,
{
    if wrap && was_at_min && passes_min {
        StepOutcome::Max
    } else if passes_min {
        StepOutcome::Min
    } else {
        StepOutcome::Next
    }
}

/// The events a stepper tells apart. A press says whether it is on the
/// lower (decrease) button; a timer carries its token.
#[derive(Debug, Clone, Copy, PartialEq, Eq, Structural)]
pub enum StepperInput {
    MouseDown { lower_half: bool },
    MouseUp,
    Timer(u64),
    Other,
}

/// Which button of a stepper is held, and the timer that repeats it.
#[derive(Debug, Clone, Copy, PartialEq, Eq, Structural)]
pub struct StepperState {
    pub increase_active: bool,
    pub decrease_active: bool,
    pub timer_id: u64,
}

/// What a stepper does in answer to an event: steps are taken in the order
/// increment, then decrement.
#[derive(Debug, Clone, Copy, PartialEq, Eq, Structural)]
pub struct StepperActions {
    pub set_active: Option<bool>,
    pub increment: bool,
    pub decrement: bool,
    /// Start a timer of this many milliseconds, whose token is then recorded.
    pub request_timer_millis: Option<u64>,
    pub request_paint: bool,
}

/// The new state and the actions of a stepper for an event.
pub open spec fn stepper_step(s: StepperState, input: StepperInput, disabled: bool) -> (
    StepperState,
    StepperActions,
) {
    let none = StepperActions {
        set_active: None,
        increment: false,
        decrement: false,
        request_timer_millis: None,
        request_paint: false,
    };
    match input {
        StepperInput::MouseDown { lower_half } => if disabled {
            (s, none)
        } else {
            (
                StepperState {
                    decrease_active: s.decrease_active || lower_half,
                    increase_active: s.increase_active || !lower_half,
                    ..s
                },
                StepperActions {
                    set_active: Some(true),
                    increment: !lower_half,
                    decrement: lower_half,
                    request_timer_millis: Some(STEPPER_REPEAT_DELAY_MILLIS),
                    request_paint: true,
                },
            )
        },
        StepperInput::MouseUp => (
            StepperState { increase_active: false, decrease_active: false, timer_id: INVALID_TIMER },
            StepperActions { set_active: Some(false), request_paint: true, ..none },
        ),
        StepperInput::Timer(id) => if id == s.timer_id {
            if disabled {
                (s, StepperActions { set_active: Some(false), ..none })
            } else {
                (
                    s,
                    StepperActions {
                        increment: s.increase_active,
                        decrement: s.decrease_active,
                        request_timer_millis: Some(STEPPER_REPEAT_MILLIS),
                        ..none
                    },
                )
            }
        } else {
            (s, none)
        },
        StepperInput::Other => (s, none),
    }
}

impl StepperState {
    /// No button held, no timer.
    pub fn new() -> (s: Self)
        ensures
            s == (StepperState { increase_active: false, decrease_active: false, timer_id: INVALID_TIMER }),
    {
        StepperState { increase_active: false, decrease_active: false, timer_id: INVALID_TIMER }
    }

    /// Handle an event (see [`stepper_step`]).
    pub fn event(&mut self, input: StepperInput, disabled: bool) -> (a: StepperActions)
        ensures
            (*final(self), a) == stepper_step(*old(self), input, disabled),
    {
        let none = StepperActions {
            set_active: None,
            increment: false,
            decrement: false,
            request_timer_millis: None,
            request_paint: false,
        };
        match input {
            StepperInput::MouseDown { lower_half } => {
                if disabled {
                    none
                } else {
                    if lower_half {
                        self.decrease_active = true;
                    } else {
                        self.increase_active = true;
                    }
                    StepperActions {
                        set_active: Some(true),
                        increment: !lower_half,
                        decrement: lower_half,
                        request_timer_millis: Some(STEPPER_REPEAT_DELAY_MILLIS),
                        request_paint: true,
                    }
                }
            },
            StepperInput::MouseUp => {
                self.increase_active = false;
                self.decrease_active = false;
                self.timer_id = INVALID_TIMER;
                StepperActions { set_active: Some(false), request_paint: true, ..none }
            },
            StepperInput::Timer(id) => {
                if id == self.timer_id {
                    if disabled {
                        StepperActions { set_active: Some(false), ..none }
                    } else {
                        StepperActions {
                            increment: self.increase_active,
                            decrement: self.decrease_active,
                            request_timer_millis: Some(STEPPER_REPEAT_MILLIS),
                            ..none
                        }
                    }
                } else {
                    none
                }
            },
            StepperInput::Other => none,
        }
    }

    /// The timer that repeats the held button was started with this token.
    pub fn timer_started(&mut self, token: u64)
        ensures
            *final(self) == (StepperState { timer_id: token, ..*old(self) }),
    {
        self.timer_id = token;
    }
}

/// A press on an enabled stepper holds the button it lands on (the lower
/// half decreases, the upper half increases) and takes one step in that
/// direction at once, grabs the pointer and asks for the repeat timer; the
/// other button and the timer are left as they were. A press on a disabled
/// stepper does nothing.
pub proof fn law_press_holds_its_button(s: StepperState, lower_half: bool, disabled: bool)
    ensures
        ({
            let (n, a) = stepper_step(s, StepperInput::MouseDown { lower_half }, disabled);
            &&& !disabled ==> {
                &&& lower_half ==> n.decrease_active && n.increase_active == s.increase_active
                &&& !lower_half ==> n.increase_active && n.decrease_active == s.decrease_active
                &&& n.timer_id == s.timer_id
                &&& a.decrement == lower_half && a.increment == !lower_half
                &&& a.set_active == Some(true) && a.request_paint
            }
            &&& disabled ==> n == s && !a.increment && !a.decrement && a.set_active is None
                && a.request_timer_millis is None
        }),
{
}

/// When the repeat timer fires on an enabled stepper it steps in the
/// direction of each held button and asks for the next repeat; the state
/// stays. A timer that is not the stepper's does nothing.
pub proof fn law_repeat_follows_held_buttons(s: StepperState, token: u64, disabled: bool)
    ensures
        ({
            let (n, a) = stepper_step(s, StepperInput::Timer(token), disabled);
            &&& n == s
            &&& token == s.timer_id && !disabled ==> a.increment == s.increase_active && a.decrement
                == s.decrease_active && a.request_timer_millis == Some(STEPPER_REPEAT_MILLIS)
            &&& token == s.timer_id && disabled ==> !a.increment && !a.decrement && a.set_active == Some(false)
            &&& token != s.timer_id ==> !a.increment && !a.decrement && a.set_active is None
                && a.request_timer_millis is None
        }),
{
}

/// Holding a button of a fresh stepper repeats in that button's direction
/// only: after a press, the start of its timer and the timer firing, the
/// stepper steps down exactly when the press was on the lower half, and up
/// exactly when it was not.
pub proof fn law_holding_repeats_its_direction(lower_half: bool, token: u64)
    ensures
        ({
            let fresh = StepperState { increase_active: false, decrease_active: false, timer_id: INVALID_TIMER };
            let pressed = stepper_step(fresh, StepperInput::MouseDown { lower_half }, false).0;
            let started = StepperState { timer_id: token, ..pressed };
            let a = stepper_step(started, StepperInput::Timer(token), false).1;
            &&& a.decrement == lower_half
            &&& a.increment == !lower_half
        }),
{
}

/// A held button repeats only while it is held: after the mouse is released
/// no timer of the stepper is live and its timer events take no step.
pub proof fn law_release_stops_repeating(s: StepperState, disabled: bool, token: u64, input: StepperInput)
    ensures
        ({
            let (released, _) = stepper_step(s, StepperInput::MouseUp, disabled);
            &&& !released.increase_active && !released.decrease_active
            &&& released.timer_id == INVALID_TIMER
            &&& !stepper_step(released, StepperInput::Timer(token), disabled).1.increment
            &&& !stepper_step(released, StepperInput::Timer(token), disabled).1.decrement
        }),
        !disabled && (input matches StepperInput::MouseDown { .. }) ==> stepper_step(s, input, disabled).1.request_timer_millis
            == Some(STEPPER_REPEAT_DELAY_MILLIS),
{
}

} // verus!
