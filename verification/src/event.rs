use vstd::prelude::*;

verus! {

/// The kinds of event that a widget receives, without their payloads.
#[derive(Clone, Copy, Debug, PartialEq, Eq, Structural)]
pub enum EventKind {
    WindowConnected,
    WindowSize,
    MouseDown,
    MouseUp,
    MouseMove,
    Wheel,
    KeyDown,
    KeyUp,
    Paste,
    Zoom,
    Timer,
    AnimFrame,
    Command,
    Internal,
}

/// The kinds of life-cycle notification that a widget receives.
#[derive(Clone, Copy, Debug, PartialEq, Eq, Structural)]
pub enum LifeCycleKind {
    WidgetAdded,
    Size,
    HotChanged,
    FocusChanged,
    DisabledChanged,
    Internal,
}

impl EventKind {
    /// Events that come from the pointer or the keyboard.
    pub open spec fn is_user_input(self) -> bool {
        match self {
            EventKind::MouseDown | EventKind::MouseUp | EventKind::MouseMove | EventKind::Wheel
            | EventKind::KeyDown | EventKind::KeyUp | EventKind::Paste | EventKind::Zoom => true,
            _ => false,
        }
    }
}

/// The pointer and keyboard events (presses, releases, moves, wheel and zoom,
/// key presses and releases, pastes) are user input; window, timer,
/// animation, command and internal events are not.
pub proof fn law_user_input(e: EventKind)
    ensures
        e.is_user_input() <==> (e == EventKind::MouseDown || e == EventKind::MouseUp || e == EventKind::MouseMove
            || e == EventKind::Wheel || e == EventKind::Zoom || e == EventKind::KeyDown || e == EventKind::KeyUp
            || e == EventKind::Paste),
{
}

} // verus!
