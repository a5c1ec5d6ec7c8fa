use vstd::prelude::*;

verus! {

/// The shape of the slider knobs.
#[derive(Debug, Copy, Clone, PartialEq, Eq, Structural)]
pub enum KnobStyle {
    /// Circle
    Circle,
    /// Wedge
    Wedge,
}

impl Default for KnobStyle {
    fn default() -> (k: Self)
        ensures
            k == KnobStyle::Circle,
    {
        KnobStyle::Circle
    }
}

/// The pointer events a slider knob tells apart.
#[derive(Debug, Clone, Copy, PartialEq, Eq, Structural)]
pub enum PointerKind {
    MouseDown,
    MouseUp,
    MouseMove,
    Other,
}

/// The state of one slider knob; the distance between the value and the
/// point where the knob was grabbed is kept by its owner.
#[derive(Debug, Clone, Copy, Default, PartialEq, Eq, Structural)]
pub struct SliderKnob {
    pub hovered: bool,
    pub active: bool,
}

/// What a knob does in answer to a pointer event.
#[derive(Debug, Clone, Copy, PartialEq, Eq, Structural)]
pub struct KnobActions {
    /// Remember how far from the value the knob was grabbed.
    pub grab: bool,
    /// Set the value from the pointer, less the grab distance.
    pub set_value: bool,
    pub request_paint: bool,
}

/// No action.
pub open spec fn no_knob_actions() -> KnobActions {
    KnobActions { grab: false, set_value: false, request_paint: false }
}

impl SliderKnob {
    /// The knob and its actions after a pointer event. `hit` says whether
    /// the pointer is over the knob (for a move, with the value the move
    /// leaves), `hot` whether the slider is hot.
    ///
    /// A press on the knob grabs it; while it is grabbed, moves and the
    /// release set the value; the release lets it go. A move updates the
    /// hover state while the slider is hot. When the slider is disabled
    /// nothing happens, but a move lets the knob go.
    pub open spec fn step(self, kind: PointerKind, hit: bool, hot: bool, disabled: bool) -> (SliderKnob, KnobActions) {
        let none = no_knob_actions();
        match kind {
            PointerKind::MouseDown => if !disabled && hit {
                (SliderKnob { active: true, ..self }, KnobActions { grab: true, request_paint: true, ..none })
            } else {
                (self, none)
            },
            PointerKind::MouseUp => {
                let set = self.active && !disabled;
                (SliderKnob { active: false, ..self }, KnobActions { set_value: set, request_paint: set, ..none })
            },
            PointerKind::MouseMove => if disabled {
                (SliderKnob { active: false, ..self }, none)
            } else {
                let hover_changed = hot && hit != self.hovered;
                (
                    SliderKnob { hovered: if hot { hit } else { self.hovered }, ..self },
                    KnobActions { set_value: self.active, request_paint: self.active || hover_changed, ..none },
                )
            },
            PointerKind::Other => (self, none),
        }
    }

    /// Handle a pointer event (see [`SliderKnob::step`]).
    pub fn handle_input(&mut self, kind: PointerKind, hit: bool, hot: bool, disabled: bool) -> (a: KnobActions)
        ensures
            (*final(self), a) == old(self).step(kind, hit, hot, disabled),
    {
        let none = KnobActions { grab: false, set_value: false, request_paint: false };
        match kind {
            PointerKind::MouseDown => {
                if !disabled && hit {
                    self.active = true;
                    KnobActions { grab: true, request_paint: true, ..none }
                } else {
                    none
                }
            },
            PointerKind::MouseUp => {
                let set = self.active && !disabled;
                self.active = false;
                KnobActions { set_value: set, request_paint: set, ..none }
            },
            PointerKind::MouseMove => {
                if disabled {
                    self.active = false;
                    none
                } else {
                    let hover_changed = hot && hit != self.hovered;
                    if hot {
                        self.hovered = hit;
                    }
                    KnobActions { set_value: self.active, request_paint: self.active || hover_changed, ..none }
                }
            },
            PointerKind::Other => none,
        }
    }

    /// Let the knob go and forget the hover.
    pub fn deactivate(&mut self)
        ensures
            *final(self) == (SliderKnob { hovered: false, active: false }),
    {
        self.hovered = false;
        self.active = false;
    }

    /// Grab the knob where it stands (its grab distance is 0).
    pub fn activate(&mut self)
        ensures
            *final(self) == (SliderKnob { hovered: true, active: true }),
    {
        self.hovered = true;
        self.active = true;
    }
}

/// What a single-value slider does in answer to a pointer event: the knob's
/// actions, then whether a press away from the knob grabs it at the press,
/// and whether the slider is active afterwards.
#[derive(Debug, Clone, Copy, PartialEq, Eq, Structural)]
pub struct SliderActions {
    pub knob: KnobActions,
    /// A press away from the knob: grab it there and set the value from
    /// the press.
    pub jump_to_press: bool,
    pub set_active: bool,
}

/// The knob and the actions of a slider for a pointer event; a disabled
/// slider ignores the event.
pub open spec fn slider_step(knob: SliderKnob, kind: PointerKind, hit: bool, hot: bool, disabled: bool) -> (
    SliderKnob,
    Option<SliderActions>,
) {
    if disabled {
        (knob, None)
    } else {
        let (k, a) = knob.step(kind, hit, hot, disabled);
        if kind == PointerKind::MouseDown && !k.active {
            (
                SliderKnob { hovered: true, active: true },
                Some(SliderActions { knob: a, jump_to_press: true, set_active: true }),
            )
        } else {
            (k, Some(SliderActions { knob: a, jump_to_press: false, set_active: k.active }))
        }
    }
}

/// Handle a pointer event on a slider (see [`slider_step`]); `None` when the
/// slider is disabled.
pub fn slider_event(knob: &mut SliderKnob, kind: PointerKind, hit: bool, hot: bool, disabled: bool) -> (r: Option<
    SliderActions,
>)
    ensures
        (*final(knob), r) == slider_step(*old(knob), kind, hit, hot, disabled),
{
    if disabled {
        return None;
    }
    let a = knob.handle_input(kind, hit, hot, disabled);
    let is_down = match kind {
        PointerKind::MouseDown => true,
        _ => false,
    };
    if is_down && !knob.active {
        knob.activate();
        Some(SliderActions { knob: a, jump_to_press: true, set_active: true })
    } else {
        Some(SliderActions { knob: a, jump_to_press: false, set_active: knob.active })
    }
}

/// The two knobs of a range slider: the left one sets the lower end, the
/// right one the upper end.
#[derive(Debug, Clone, Copy, Default, PartialEq, Eq, Structural)]
pub struct RangeKnobs {
    pub left: SliderKnob,
    pub right: SliderKnob,
}

/// What a range slider measured of a pointer event.
#[derive(Debug, Clone, Copy, PartialEq, Eq, Structural)]
pub struct RangePointer {
    pub kind: PointerKind,
    pub left_hit: bool,
    pub right_hit: bool,
    pub hot: bool,
    /// A press lies nearer to the lower end than to the upper end.
    pub nearer_left: bool,
}

/// What a range slider does in answer to a pointer event. After the left
/// knob's actions the lower end is kept at most the upper end; after the
/// right knob's actions the upper end is kept at least the lower end.
#[derive(Debug, Clone, Copy, PartialEq, Eq, Structural)]
pub struct RangeActions {
    /// The left knob's actions, if it handled the event.
    pub left: Option<KnobActions>,
    /// The right knob's actions, if it handled the event.
    pub right: Option<KnobActions>,
    /// A press away from both knobs grabs the left knob there and sets the
    /// lower end from the press.
    pub jump_left: bool,
    /// Likewise for the right knob and the upper end.
    pub jump_right: bool,
    pub set_active: bool,
}

/// The knobs and the actions of a range slider for a pointer event; a
/// disabled slider ignores the event. A knob handles the event only while
/// the other is not held, and grabbing one lets the other go.
pub open spec fn range_step(knobs: RangeKnobs, p: RangePointer, disabled: bool) -> (RangeKnobs, Option<RangeActions>) {
    if disabled {
        (knobs, None)
    } else {
        let (l1, r1, la) = if !knobs.right.active {
            let (l, a) = knobs.left.step(p.kind, p.left_hit, p.hot, false);
            (l, if l.active { SliderKnob { hovered: false, active: false } } else { knobs.right }, Some(a))
        } else {
            (knobs.left, knobs.right, None)
        };
        let (l2, r2, ra) = if !l1.active {
            let (r, a) = r1.step(p.kind, p.right_hit, p.hot, false);
            (if r.active { SliderKnob { hovered: false, active: false } } else { l1 }, r, Some(a))
        } else {
            (l1, r1, None)
        };
        if p.kind == PointerKind::MouseDown && !l2.active && !r2.active {
            if p.nearer_left {
                (
                    RangeKnobs { left: SliderKnob { hovered: true, active: true }, right: r2 },
                    Some(RangeActions { left: la, right: ra, jump_left: true, jump_right: false, set_active: true }),
                )
            } else {
                (
                    RangeKnobs { left: l2, right: SliderKnob { hovered: true, active: true } },
                    Some(RangeActions { left: la, right: ra, jump_left: false, jump_right: true, set_active: true }),
                )
            }
        } else {
            (
                RangeKnobs { left: l2, right: r2 },
                Some(RangeActions { left: la, right: ra, jump_left: false, jump_right: false, set_active: l2.active || r2.active }),
            )
        }
    }
}

impl RangeKnobs {
    /// Handle a pointer event on a range slider (see [`range_step`]); `None`
    /// when the slider is disabled.
    pub fn event(&mut self, p: RangePointer, disabled: bool) -> (r: Option<RangeActions>)
        ensures
            (*final(self), r) == range_step(*old(self), p, disabled),
    {
        if disabled {
            return None;
        }
        let mut la: Option<KnobActions> = None;
        let mut ra: Option<KnobActions> = None;
        if !self.right.active {
            la = Some(self.left.handle_input(p.kind, p.left_hit, p.hot, false));
            if self.left.active {
                self.right.deactivate();
            }
        }
        if !self.left.active {
            ra = Some(self.right.handle_input(p.kind, p.right_hit, p.hot, false));
            if self.right.active {
                self.left.deactivate();
            }
        }
        let is_down = match p.kind {
            PointerKind::MouseDown => true,
            _ => false,
        };
        if is_down && !self.left.active && !self.right.active {
            if p.nearer_left {
                self.left.activate();
                Some(RangeActions { left: la, right: ra, jump_left: true, jump_right: false, set_active: true })
            } else {
                self.right.activate();
                Some(RangeActions { left: la, right: ra, jump_left: false, jump_right: true, set_active: true })
            }
        } else {
            Some(
                RangeActions {
                    left: la,
                    right: ra,
                    jump_left: false,
                    jump_right: false,
                    set_active: self.left.active || self.right.active,
                },
            )
        }
    }
}

/// A press on a range slider away from both knobs, while neither is held,
/// grabs the knob nearer to the press and sets that end from it: the lower
/// end when the press is nearer to it, the upper end otherwise. A jump
/// happens only on such a press, moves exactly one end, and leaves held
/// exactly the knob of the end it moves.
pub proof fn law_range_press_moves_nearer_end(knobs: RangeKnobs, p: RangePointer)
    ensures
        ({
            let (k, r) = range_step(knobs, p, false);
            &&& r is Some
            &&& (r->0.jump_left || r->0.jump_right) ==> {
                &&& p.kind == PointerKind::MouseDown
                &&& r->0.jump_left == p.nearer_left
                &&& r->0.jump_right == !p.nearer_left
                &&& k.left.active == p.nearer_left
                &&& k.right.active == !p.nearer_left
                &&& r->0.set_active
            }
            &&& p.kind == PointerKind::MouseDown && !knobs.left.active && !knobs.right.active && !p.left_hit
                && !p.right_hit ==> r->0.jump_left == p.nearer_left && r->0.jump_right == !p.nearer_left
        }),
{
}

/// A press on a knob of a range slider, while neither is held, grabs that
/// knob (the left one when the press is on both) without a jump, and the
/// knob remembers where it was grabbed; the other knob is let go.
pub proof fn law_range_press_on_knob_grabs_it(knobs: RangeKnobs, p: RangePointer)
    requires
        p.kind == PointerKind::MouseDown,
        !knobs.left.active,
        !knobs.right.active,
    ensures
        ({
            let (k, r) = range_step(knobs, p, false);
            &&& p.left_hit ==> k.left.active && !k.right.active && r->0.left == Some(
                KnobActions { grab: true, set_value: false, request_paint: true },
            ) && !r->0.jump_left && !r->0.jump_right
            &&& !p.left_hit && p.right_hit ==> k.right.active && !k.left.active && r->0.right == Some(
                KnobActions { grab: true, set_value: false, request_paint: true },
            ) && !r->0.jump_left && !r->0.jump_right
        }),
{
}

/// While one knob of a range slider is held, the other does not handle a
/// move: a move or the release sets the held knob's end, and the release
/// lets it go (after which the right knob sees the release too).
/// A disabled range slider ignores every event.
pub proof fn law_range_held_knob_handles_pointer(knobs: RangeKnobs, p: RangePointer, disabled: bool)
    ensures
        disabled ==> range_step(knobs, p, disabled) == (knobs, None::<RangeActions>),
        !disabled && knobs.left.active && !knobs.right.active && (p.kind == PointerKind::MouseMove || p.kind
            == PointerKind::MouseUp) ==> {
            let (k, r) = range_step(knobs, p, disabled);
            &&& r->0.left matches Some(a) && a.set_value
            &&& p.kind == PointerKind::MouseMove ==> r->0.right is None
            &&& !k.right.active
            &&& p.kind == PointerKind::MouseUp ==> !k.left.active
            &&& p.kind == PointerKind::MouseMove ==> k.left.active
        },
        !disabled && knobs.right.active && !knobs.left.active && (p.kind == PointerKind::MouseMove || p.kind
            == PointerKind::MouseUp) ==> {
            let (k, r) = range_step(knobs, p, disabled);
            &&& r->0.right matches Some(a) && a.set_value
            &&& r->0.left is None
            &&& !k.left.active
            &&& p.kind == PointerKind::MouseUp ==> !k.right.active
            &&& p.kind == PointerKind::MouseMove ==> k.right.active
        },
{
}

/// A single knob: a press on it grabs it; a press elsewhere leaves it; the
/// release lets it go and sets the value exactly when it was held; a move
/// sets the value exactly while it is held; when the slider is hot, a move
/// sets the hover to whether the pointer is over the knob.
pub proof fn law_knob_follows_pointer(k: SliderKnob, hit: bool, hot: bool)
    ensures
        ({
            let (d, da) = k.step(PointerKind::MouseDown, hit, hot, false);
            &&& hit ==> d.active && da.grab
            &&& !hit ==> d == k && !da.grab && !da.set_value
        }),
        ({
            let (u, ua) = k.step(PointerKind::MouseUp, hit, hot, false);
            &&& !u.active && ua.set_value == k.active && u.hovered == k.hovered
        }),
        ({
            let (m, ma) = k.step(PointerKind::MouseMove, hit, hot, false);
            &&& m.active == k.active && ma.set_value == k.active && !ma.grab
            &&& hot ==> m.hovered == hit
            &&& !hot ==> m.hovered == k.hovered
        }),
        !k.step(PointerKind::MouseMove, hit, hot, true).0.active,
        !k.step(PointerKind::MouseDown, hit, hot, true).0.active == !k.active,
{
}

/// A single-value slider: a press on the knob grabs it without a jump; a
/// press elsewhere grabs it there and sets the value from the press; the
/// slider is active exactly while the knob is held; a disabled slider
/// ignores every event.
pub proof fn law_slider_press_jumps_only_off_knob(knob: SliderKnob, kind: PointerKind, hit: bool, hot: bool, disabled: bool)
    ensures
        disabled ==> slider_step(knob, kind, hit, hot, disabled) == (knob, None::<SliderActions>),
        !disabled ==> {
            let (k, r) = slider_step(knob, kind, hit, hot, disabled);
            &&& r is Some
            &&& r->0.set_active == k.active
            &&& r->0.jump_to_press == (kind == PointerKind::MouseDown && !hit && !knob.active)
            &&& kind == PointerKind::MouseDown && hit ==> r->0.knob.grab
        },
{
}

/// At most one knob of a range slider is held at a time, whatever the
/// events; a press always leaves one knob held; and the slider is active
/// exactly while a knob is held.
pub proof fn law_one_knob_at_a_time(knobs: RangeKnobs, p: RangePointer, disabled: bool)
    requires
        !(knobs.left.active && knobs.right.active),
    ensures
        ({
            let (k, r) = range_step(knobs, p, disabled);
            &&& !(k.left.active && k.right.active)
            &&& !disabled && p.kind == PointerKind::MouseDown ==> k.left.active || k.right.active
            &&& r matches Some(a) ==> a.set_active == (k.left.active || k.right.active)
        }),
{
}

/// A press on a single-value slider always leaves its knob held, and a
/// release always lets it go.
pub proof fn law_slider_press_grabs(knob: SliderKnob, hit: bool, hot: bool)
    ensures
        slider_step(knob, PointerKind::MouseDown, hit, hot, false).0.active,
        !slider_step(knob, PointerKind::MouseUp, hit, hot, false).0.active,
{
}

} // verus!
