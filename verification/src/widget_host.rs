use vstd::prelude::*;

verus! {

/// The focus state of one widget in a widget tree.
#[derive(Debug, Clone, Copy, Default, PartialEq, Eq, Structural)]
pub struct WidgetState {
    /// The widget has mouse focus: it receives all mouse events until it
    /// releases focus.
    pub mouse_focus: bool,
    /// A descendant of this widget has captured the mouse.
    pub child_mouse_focus: bool,
    /// The widget has keyboard focus.
    pub keyboard_focus: bool,
    /// A descendant of the widget has keyboard focus.
    pub child_keyboard_focus: bool,
    /// The widget asked for an update pass.
    pub request_update: bool,
}

impl WidgetState {
    /// A state with no focus and no request.
    pub fn new() -> (s: Self)
        ensures
            s == (WidgetState {
                mouse_focus: false,
                child_mouse_focus: false,
                keyboard_focus: false,
                child_keyboard_focus: false,
                request_update: false,
            }),
    {
        WidgetState {
            mouse_focus: false,
            child_mouse_focus: false,
            keyboard_focus: false,
            child_keyboard_focus: false,
            request_update: false,
        }
    }

    /// This widget or one of its descendants has the mouse.
    pub fn has_mouse_focus(&self) -> (b: bool)
        ensures
            b == self.has_mouse_focus_spec(),
    {
        self.mouse_focus || self.child_mouse_focus
    }

    /// This widget or one of its descendants has the keyboard, so key events
    /// are passed on to its child.
    pub fn wants_key_events(&self) -> (b: bool)
        ensures
            b == self.wants_key_events_spec(),
    {
        self.keyboard_focus || self.child_keyboard_focus
    }

    /// Take or release the mouse.
    pub fn set_mouse_focus(&mut self, focus: bool)
        ensures
            *final(self) == (WidgetState { mouse_focus: focus, ..*old(self) }),
    {
        self.mouse_focus = focus;
    }

    /// Ask for an update pass.
    pub fn request_update(&mut self)
        ensures
            *final(self) == (WidgetState { request_update: true, ..*old(self) }),
    {
        self.request_update = true;
    }

    /// After an event: whether an update pass was asked for; the request is
    /// cleared.
    pub fn take_update_request(&mut self) -> (requested: bool)
        ensures
            requested == old(self).request_update,
            *final(self) == (WidgetState { request_update: false, ..*old(self) }),
    {
        let requested = self.request_update;
        self.request_update = false;
        requested
    }

    /// Before an event is passed to the child: forget what the descendants held.
    pub fn begin_child_dispatch(&mut self)
        ensures
            *final(self) == (WidgetState {
                child_mouse_focus: false,
                child_keyboard_focus: false,
                ..*old(self)
            }),
    {
        self.child_keyboard_focus = false;
        self.child_mouse_focus = false;
    }

    /// This state once the focus that `child` and its descendants hold is
    /// counted as focus held by a descendant.
    pub open spec fn merged_with(self, child: WidgetState) -> WidgetState {
        WidgetState {
            child_mouse_focus: self.child_mouse_focus || child.child_mouse_focus || child.mouse_focus,
            child_keyboard_focus: self.child_keyboard_focus || child.child_keyboard_focus
                || child.keyboard_focus,
            ..self
        }
    }

    /// After an event: the focus held by a child or its descendants counts as
    /// focus held by a descendant of this widget.
    pub fn merge_up(&mut self, child: &WidgetState)
        ensures
            *final(self) == old(self).merged_with(*child),
            final(self).child_mouse_focus == (old(self).child_mouse_focus || child.child_mouse_focus
                || child.mouse_focus),
            final(self).child_keyboard_focus == (old(self).child_keyboard_focus
                || child.child_keyboard_focus || child.keyboard_focus),
            final(self).mouse_focus == old(self).mouse_focus,
            final(self).keyboard_focus == old(self).keyboard_focus,
            final(self).request_update == old(self).request_update,
    {
        self.child_mouse_focus = self.child_mouse_focus || (child.child_mouse_focus
            || child.mouse_focus);
        self.child_keyboard_focus = self.child_keyboard_focus || (child.child_keyboard_focus
            || child.keyboard_focus);
    }
}

/// The layout-derived state that the parent hands to a child.
#[derive(Debug, Clone, Copy, Default, PartialEq, Eq, Structural)]
pub struct LayoutState {
    /// The mouse is inside the widget's frame.
    pub hovered: bool,
}

/// Manages the position of a child widget: after the child is laid out, the
/// parent must set its origin before it is painted.
///
/// `P` is the type of a position and `S` the type of a size.
pub struct LayoutHost<W, P, S> {
    size: S,
    debug_needs_set_origin: bool,
    origin: P,
    child: W,
}

impl<W, P: Copy, S: Copy> LayoutHost<W, P, S> {
    /// The size of the child, as laid out last.
    pub closed spec fn spec_size(&self) -> S {
        self.size
    }

    /// The position of the child relative to its parent.
    pub closed spec fn spec_origin(&self) -> P {
        self.origin
    }

    /// The child widget.
    pub closed spec fn spec_child(&self) -> W {
        self.child
    }

    /// The child has been laid out and its origin not yet set since.
    pub closed spec fn needs_set_origin(&self) -> bool {
        self.debug_needs_set_origin
    }

    /// This host once layout has produced `size`: the origin must be set again.
    pub closed spec fn after_layout(self, size: S) -> Self {
        LayoutHost { size, debug_needs_set_origin: true, ..self }
    }

    /// This host once the child's origin is set to `point`.
    pub closed spec fn after_set_origin(self, point: P) -> Self {
        LayoutHost { origin: point, debug_needs_set_origin: false, ..self }
    }

    /// Create a new `LayoutHost` for the given child, with a zero origin and
    /// size; the parent must set the origin before painting.
    pub fn new(child: W, zero_origin: P, zero_size: S) -> (h: Self)
        ensures
            h.spec_child() == child,
            h.spec_origin() == zero_origin,
            h.spec_size() == zero_size,
            h.needs_set_origin(),
    {
        LayoutHost { child, size: zero_size, origin: zero_origin, debug_needs_set_origin: true }
    }

    /// Set the position of the child, relative to the origin of the parent.
    pub fn set_origin(&mut self, point: P)
        ensures
            *final(self) == old(self).after_set_origin(point),
            final(self).spec_origin() == point,
            !final(self).needs_set_origin(),
            final(self).spec_size() == old(self).spec_size(),
            final(self).spec_child() == old(self).spec_child(),
    {
        self.origin = point;
        self.debug_needs_set_origin = false;
    }

    /// The child's size.
    pub fn size(&self) -> (s: S)
        ensures
            s == self.spec_size(),
    {
        self.size
    }

    /// The child's origin.
    pub fn origin(&self) -> (p: P)
        ensures
            p == self.spec_origin(),
    {
        self.origin
    }

    /// Record the size that laying out the child produced; the origin must be
    /// set again before painting.
    pub fn record_layout(&mut self, size: S)
        ensures
            *final(self) == old(self).after_layout(size),
            final(self).spec_size() == size,
            final(self).needs_set_origin(),
            final(self).spec_origin() == old(self).spec_origin(),
            final(self).spec_child() == old(self).spec_child(),
    {
        self.debug_needs_set_origin = true;
        self.size = size;
    }

    /// The child may be painted: its origin has been set since it was last
    /// laid out.
    pub fn can_paint(&self) -> (b: bool)
        ensures
            b == !self.needs_set_origin(),
    {
        !self.debug_needs_set_origin
    }

    /// The child widget.
    pub fn widget(&self) -> (w: &W)
        ensures
            *w == self.spec_child(),
    {
        &self.child
    }
}

/// Hosts a child widget: tracks its focus state and its position.
pub struct WidgetHost<W, P, S> {
    pub child: LayoutHost<W, P, S>,
    pub state: WidgetState,
}

impl<W, P: Copy, S: Copy> WidgetHost<W, P, S> {
    /// Host `child`, with no focus.
    pub fn new(child: W, zero_origin: P, zero_size: S) -> (h: Self)
        ensures
            h.child.spec_child() == child,
            h.child.spec_origin() == zero_origin,
            h.child.spec_size() == zero_size,
            h.child.needs_set_origin(),
            h.state == WidgetState::new_spec(),
    {
        WidgetHost { child: LayoutHost::new(child, zero_origin, zero_size), state: WidgetState::new() }
    }

    /// Set the position of the hosted child.
    pub fn set_origin(&mut self, origin: P)
        ensures
            final(self).child.spec_origin() == origin,
            !final(self).child.needs_set_origin(),
            final(self).child.spec_size() == old(self).child.spec_size(),
            final(self).child.spec_child() == old(self).child.spec_child(),
            final(self).state == old(self).state,
    {
        self.child.set_origin(origin);
    }
}

impl WidgetState {
    /// The state with no focus and no request.
    pub open spec fn new_spec() -> WidgetState {
        WidgetState {
            mouse_focus: false,
            child_mouse_focus: false,
            keyboard_focus: false,
            child_keyboard_focus: false,
            request_update: false,
        }
    }
}

/// A button's reaction to the mouse.
#[derive(Debug, Clone, Copy, PartialEq, Eq, Structural)]
pub struct ButtonReaction {
    pub request_paint: bool,
    pub clicked: bool,
}

/// The state a button keeps between events.
#[derive(Debug, Clone, Copy, Default, PartialEq, Eq, Structural)]
pub struct ButtonState {
    /// The mouse was over the button at the last move.
    pub hovered: bool,
}

impl ButtonState {
    /// The state and the reaction after a mouse button goes down.
    pub open spec fn pressed(state: WidgetState, is_left: bool, count: u8) -> (WidgetState, ButtonReaction) {
        if is_left && count == 1 {
            (WidgetState { mouse_focus: true, ..state }, ButtonReaction { request_paint: true, clicked: false })
        } else {
            (state, ButtonReaction { request_paint: false, clicked: false })
        }
    }

    /// The state and the reaction after a mouse button goes up.
    pub open spec fn released(state: WidgetState, is_left: bool, hovered: bool) -> (WidgetState, ButtonReaction) {
        if is_left && state.mouse_focus {
            (WidgetState { mouse_focus: false, ..state }, ButtonReaction { request_paint: true, clicked: hovered })
        } else {
            (state, ButtonReaction { request_paint: false, clicked: false })
        }
    }

    /// The mouse moved; `hovered` says whether it is now over the button.
    pub fn mouse_move(&mut self, hovered: bool) -> (r: ButtonReaction)
        ensures
            final(self).hovered == hovered,
            r == (ButtonReaction { request_paint: hovered != old(self).hovered, clicked: false }),
    {
        let changed = hovered != self.hovered;
        self.hovered = hovered;
        ButtonReaction { request_paint: changed, clicked: false }
    }

    /// A mouse button went down: a single left click takes the mouse.
    pub fn mouse_down(state: &mut WidgetState, is_left: bool, count: u8) -> (r: ButtonReaction)
        ensures
            (*final(state), r) == ButtonState::pressed(*old(state), is_left, count),
            is_left && count == 1 ==> *final(state) == (WidgetState {
                mouse_focus: true,
                ..*old(state)
            }),
            !(is_left && count == 1) ==> *final(state) == *old(state),
            r == (ButtonReaction { request_paint: is_left && count == 1, clicked: false }),
    {
        if is_left && count == 1 {
            state.set_mouse_focus(true);
            ButtonReaction { request_paint: true, clicked: false }
        } else {
            ButtonReaction { request_paint: false, clicked: false }
        }
    }

    /// A mouse button went up: releasing the left button on a button that
    /// holds the mouse releases it, and clicks when the mouse is still over it.
    pub fn mouse_up(state: &mut WidgetState, is_left: bool, hovered: bool) -> (r: ButtonReaction)
        ensures
            (*final(state), r) == ButtonState::released(*old(state), is_left, hovered),
            is_left && old(state).mouse_focus ==> *final(state) == (WidgetState {
                mouse_focus: false,
                ..*old(state)
            }) && r == (ButtonReaction { request_paint: true, clicked: hovered }),
            !(is_left && old(state).mouse_focus) ==> *final(state) == *old(state) && r == (
            ButtonReaction { request_paint: false, clicked: false }),
    {
        if is_left && state.mouse_focus {
            state.set_mouse_focus(false);
            ButtonReaction { request_paint: true, clicked: hovered }
        } else {
            ButtonReaction { request_paint: false, clicked: false }
        }
    }
}

/// A click needs a press and a release: releasing a button that does not
/// hold the mouse never clicks, and a single left press followed by a left
/// release over the button clicks and gives the mouse back.
pub proof fn law_click_needs_press(state: WidgetState, is_left: bool, hovered: bool)
    ensures
        !state.mouse_focus ==> !ButtonState::released(state, is_left, hovered).1.clicked,
        ({
            let (down, _) = ButtonState::pressed(state, true, 1);
            let (up, r) = ButtonState::released(down, true, hovered);
            r.clicked == hovered && !up.mouse_focus
        }),
{
}

/// A button takes the mouse only on a single left press, and keeps everything
/// else; it clicks only when the left button is released while it holds the
/// mouse and the mouse is over it, and that release gives the mouse back; a
/// press never clicks.
pub proof fn law_button_press_and_release(state: WidgetState, is_left: bool, count: u8, hovered: bool)
    ensures
        ButtonState::pressed(state, is_left, count).0.mouse_focus == (state.mouse_focus || (is_left && count == 1)),
        ButtonState::pressed(state, is_left, count).0.keyboard_focus == state.keyboard_focus,
        ButtonState::pressed(state, is_left, count).1.request_paint == (is_left && count == 1),
        !ButtonState::pressed(state, is_left, count).1.clicked,
        ButtonState::released(state, is_left, hovered).1.clicked == (is_left && state.mouse_focus && hovered),
        is_left ==> !ButtonState::released(state, is_left, hovered).0.mouse_focus,
        !is_left ==> ButtonState::released(state, is_left, hovered).0 == state,
{
}

/// A laid-out child cannot be painted until its origin is set, and setting the
/// origin is enough.
pub proof fn law_set_origin_between_layout_and_paint<W, P: Copy, S: Copy>(
    host: LayoutHost<W, P, S>,
    size: S,
    origin: P,
)
    ensures
        !host.after_layout(size).can_paint_spec(),
        host.after_layout(size).after_set_origin(origin).can_paint_spec(),
        host.after_layout(size).after_set_origin(origin).spec_size() == size,
        host.after_layout(size).after_set_origin(origin).spec_origin() == origin,
{
}

impl<W, P: Copy, S: Copy> LayoutHost<W, P, S> {
    /// The child may be painted.
    pub open spec fn can_paint_spec(&self) -> bool {
        !self.needs_set_origin()
    }
}

/// Focus flows up: after a child's state is merged into its parent, the
/// parent knows of every focus the child or its descendants hold, and keeps
/// what it held itself.
pub proof fn law_focus_flows_up(parent: WidgetState, child: WidgetState)
    ensures
        child.mouse_focus || child.child_mouse_focus ==> parent.merged_with(child).has_mouse_focus_spec(),
        child.keyboard_focus || child.child_keyboard_focus ==> parent.merged_with(child).wants_key_events_spec(),
        parent.has_mouse_focus_spec() ==> parent.merged_with(child).has_mouse_focus_spec(),
        parent.wants_key_events_spec() ==> parent.merged_with(child).wants_key_events_spec(),
{
}

/// A merge records exactly the focus that the child or its descendants hold
/// as focus of a descendant, and changes nothing of the parent's own state.
pub proof fn law_merge_records_child_focus(parent: WidgetState, child: WidgetState)
    ensures
        parent.merged_with(child).child_mouse_focus == (parent.child_mouse_focus || child.mouse_focus
            || child.child_mouse_focus),
        parent.merged_with(child).child_keyboard_focus == (parent.child_keyboard_focus || child.keyboard_focus
            || child.child_keyboard_focus),
        parent.merged_with(child).mouse_focus == parent.mouse_focus,
        parent.merged_with(child).keyboard_focus == parent.keyboard_focus,
        parent.merged_with(child).request_update == parent.request_update,
{
}

impl WidgetState {
    /// This widget or one of its descendants has the mouse.
    pub open spec fn has_mouse_focus_spec(self) -> bool {
        self.mouse_focus || self.child_mouse_focus
    }

    /// This widget or one of its descendants has the keyboard.
    pub open spec fn wants_key_events_spec(self) -> bool {
        self.keyboard_focus || self.child_keyboard_focus
    }
}

} // verus!
