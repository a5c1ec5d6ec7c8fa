use vstd::prelude::*;
use crate::widget_host::{LayoutState, WidgetState};

verus! {

/// What a widget sees of its own state while it paints: its focus state and
/// the layout state its parent handed down.
pub struct PaintCtx<'a> {
    state: &'a WidgetState,
    layout_state: &'a LayoutState,
}

impl<'a> PaintCtx<'a> {
    /// The widget's focus state.
    pub closed spec fn spec_state(&self) -> WidgetState {
        *self.state
    }

    /// The layout state the parent handed down.
    pub closed spec fn spec_layout_state(&self) -> LayoutState {
        *self.layout_state
    }

    /// A context over a widget's state and its layout state.
    pub fn new(state: &'a WidgetState, layout_state: &'a LayoutState) -> (c: Self)
        ensures
            c.spec_state() == *state,
            c.spec_layout_state() == *layout_state,
    {
        PaintCtx { state, layout_state }
    }

    /// The mouse is inside the widget's frame.
    pub fn hovered(&self) -> (b: bool)
        ensures
            b == self.spec_layout_state().hovered,
    {
        self.layout_state.hovered
    }

    /// The widget holds the mouse.
    pub fn mouse_focused(&self) -> (b: bool)
        ensures
            b == self.spec_state().mouse_focus,
    {
        self.state.mouse_focus
    }

    /// The widget holds the keyboard.
    pub fn keyboard_focused(&self) -> (b: bool)
        ensures
            b == self.spec_state().keyboard_focus,
    {
        self.state.keyboard_focus
    }
}

/// The context in which an application builds its windows.
pub struct LaunchCtx;

} // verus!
