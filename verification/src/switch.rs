use vstd::prelude::*;

verus! {

/// The state of a switch that toggles a boolean; the knob's position is
/// kept by its owner.
#[derive(Debug, Clone, Copy, Default, PartialEq, Eq, Structural)]
pub struct Switch {
    pub knob_hovered: bool,
    pub knob_dragged: bool,
    pub animation_in_progress: bool,
}

/// The events a switch tells apart, with what its owner measured of the knob.
#[derive(Debug, Clone, Copy, PartialEq, Eq, Structural)]
pub enum SwitchInput {
    MouseDown,
    /// The button was released; `knob_past_middle` says whether the knob
    /// stands in the "on" half.
    MouseUp { knob_past_middle: bool },
    /// The mouse moved; `active` and `hot` are the switch's flags, and
    /// `over_knob` whether the mouse is over the knob.
    MouseMoved { active: bool, hot: bool, over_knob: bool },
    /// An animation frame; `knob_between_ends` says whether the knob, after
    /// moving by one frame, still lies strictly between its two ends.
    AnimFrame { knob_between_ends: bool },
    Other,
}

/// What a switch does in answer to an event.
#[derive(Debug, Clone, Copy, PartialEq, Eq, Structural)]
pub struct SwitchActions {
    pub set_active: Option<bool>,
    /// Move the knob with the mouse, within its two ends.
    pub drag_knob: bool,
    /// Move the knob one frame towards the end that the value selects.
    pub move_knob: bool,
    pub request_anim_frame: bool,
    pub invalidate: bool,
}

impl Switch {
    /// The state, the value and the actions after an event. A release
    /// after a drag sets the value to the side the knob is on; a release
    /// without drag toggles the value; either way the knob then slides to
    /// its end.
    pub open spec fn step(self, input: SwitchInput, value: bool) -> (Switch, bool, SwitchActions) {
        let none = SwitchActions {
            set_active: None,
            drag_knob: false,
            move_knob: false,
            request_anim_frame: false,
            invalidate: false,
        };
        match input {
            SwitchInput::MouseDown => (self, value, SwitchActions { set_active: Some(true), invalidate: true, ..none }),
            SwitchInput::MouseUp { knob_past_middle } => (
                Switch { knob_dragged: false, animation_in_progress: true, ..self },
                if self.knob_dragged {
                    knob_past_middle
                } else {
                    !value
                },
                SwitchActions { set_active: Some(false), invalidate: true, request_anim_frame: true, ..none },
            ),
            SwitchInput::MouseMoved { active, hot, over_knob } => (
                Switch {
                    knob_dragged: self.knob_dragged || active,
                    knob_hovered: if hot {
                        over_knob
                    } else {
                        self.knob_hovered
                    },
                    ..self
                },
                value,
                SwitchActions { drag_knob: active, invalidate: true, ..none },
            ),
            SwitchInput::AnimFrame { knob_between_ends } => if self.animation_in_progress {
                (
                    Switch { animation_in_progress: knob_between_ends, ..self },
                    value,
                    SwitchActions { move_knob: true, request_anim_frame: knob_between_ends, ..none },
                )
            } else {
                (self, value, none)
            },
            SwitchInput::Other => (self, value, none),
        }
    }

    /// A switch at rest.
    pub fn new() -> (s: Self)
        ensures
            s == (Switch { knob_hovered: false, knob_dragged: false, animation_in_progress: false }),
    {
        Switch { knob_hovered: false, knob_dragged: false, animation_in_progress: false }
    }

    /// Handle an event; `value` is the boolean the switch toggles.
    pub fn event(&mut self, input: SwitchInput, value: &mut bool) -> (a: SwitchActions)
        ensures
            (*final(self), *final(value), a) == old(self).step(input, *old(value)),
    {
        let none = SwitchActions {
            set_active: None,
            drag_knob: false,
            move_knob: false,
            request_anim_frame: false,
            invalidate: false,
        };
        match input {
            SwitchInput::MouseDown => SwitchActions { set_active: Some(true), invalidate: true, ..none },
            SwitchInput::MouseUp { knob_past_middle } => {
                if self.knob_dragged {
                    *value = knob_past_middle;
                } else {
                    *value = !*value;
                }
                self.knob_dragged = false;
                self.animation_in_progress = true;
                SwitchActions { set_active: Some(false), invalidate: true, request_anim_frame: true, ..none }
            },
            SwitchInput::MouseMoved { active, hot, over_knob } => {
                if active {
                    self.knob_dragged = true;
                }
                if hot {
                    self.knob_hovered = over_knob;
                }
                SwitchActions { drag_knob: active, invalidate: true, ..none }
            },
            SwitchInput::AnimFrame { knob_between_ends } => {
                if self.animation_in_progress {
                    if !knob_between_ends {
                        self.animation_in_progress = false;
                    }
                    SwitchActions { move_knob: true, request_anim_frame: knob_between_ends, ..none }
                } else {
                    none
                }
            },
            SwitchInput::Other => none,
        }
    }
}

/// A click on a switch toggles its value; a drag leaves the value on the
/// side where the knob was let go; and after a release the knob slides.
pub proof fn law_click_toggles(s: Switch, value: bool, past_middle: bool)
    ensures
        ({
            let (down, v1, _) = s.step(SwitchInput::MouseDown, value);
            let (up, v2, a) = down.step(SwitchInput::MouseUp { knob_past_middle: past_middle }, v1);
            &&& !s.knob_dragged ==> v2 == !value
            &&& s.knob_dragged ==> v2 == past_middle
            &&& up.animation_in_progress && !up.knob_dragged && a.request_anim_frame
        }),
{
}

/// Only a release changes the value of a switch. A press grabs the pointer.
/// A move while the switch is active drags the knob and marks the switch as
/// dragged; while hot, it sets the knob's hover to whether the mouse is over
/// the knob. An animation frame moves the knob only while the slide is in
/// progress, and the slide ends, with no further frame asked for, once the
/// knob reaches an end.
pub proof fn law_switch_events(s: Switch, input: SwitchInput, value: bool)
    ensures
        !(input is MouseUp) ==> s.step(input, value).1 == value,
        input is MouseDown ==> s.step(input, value).2.set_active == Some(true) && s.step(input, value).0 == s,
        input matches SwitchInput::MouseMoved { active, hot, over_knob } ==> {
            let (n, _, a) = s.step(input, value);
            &&& a.drag_knob == active
            &&& n.knob_dragged == (s.knob_dragged || active)
            &&& hot ==> n.knob_hovered == over_knob
            &&& !hot ==> n.knob_hovered == s.knob_hovered
            &&& n.animation_in_progress == s.animation_in_progress
        },
        input matches SwitchInput::AnimFrame { knob_between_ends } ==> {
            let (n, _, a) = s.step(input, value);
            &&& a.move_knob == s.animation_in_progress
            &&& a.request_anim_frame == (s.animation_in_progress && knob_between_ends)
            &&& n.animation_in_progress == (s.animation_in_progress && knob_between_ends)
            &&& n.knob_dragged == s.knob_dragged && n.knob_hovered == s.knob_hovered
        },
        input matches SwitchInput::MouseUp { knob_past_middle } ==> {
            let (n, v, a) = s.step(input, value);
            &&& v == (if s.knob_dragged { knob_past_middle } else { !value })
            &&& a.set_active == Some(false)
            &&& !n.knob_dragged && n.animation_in_progress
        },
{
}

} // verus!
