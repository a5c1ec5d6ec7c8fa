use vstd::prelude::*;
use crate::ids::INVALID_TIMER;

verus! {

/// Which scroll bar is being dragged, with the distance from the start of
/// the bar to where the mouse grabbed it.
#[derive(Debug, Clone, Copy, PartialEq)]
pub enum BarHeldState<O> {
    NotHeld,
    Vertical(O),
    Horizontal(O),
}

/// Which scroll bar the mouse is over.
#[derive(Debug, Clone, Copy, PartialEq, Eq, Structural)]
pub enum BarHoveredState {
    NotHovered,
    Vertical,
    Horizontal,
}

/// The events that a scroll container tells apart. A timer carries its token.
#[derive(Debug, Clone, Copy, PartialEq, Eq, Structural)]
pub enum ScrollInput {
    MouseMove,
    MouseDown,
    MouseUp,
    Timer(u64),
    Wheel,
    Other,
}

/// Where a mouse event lies relative to the scroll bars: whether it hits
/// each bar, and where along each bar it would grab it.
#[derive(Debug, Clone, Copy)]
pub struct BarHits<O> {
    pub vertical: bool,
    pub horizontal: bool,
    pub vertical_grab: O,
    pub horizontal_grab: O,
}

/// The state of the scroll bars that the event logic keeps.
#[derive(Debug, Clone, Copy)]
pub struct ScrollBars<O> {
    pub held: BarHeldState<O>,
    pub hovered: BarHoveredState,
    /// The timer after which the bars fade; `INVALID_TIMER` when none runs.
    pub timer_id: u64,
}

/// What a scroll container does in answer to an event.
#[derive(Debug, Clone, Copy, PartialEq, Eq, Structural)]
pub struct ScrollActions {
    /// Offer the event to the child.
    pub forward_to_child: bool,
    /// Scroll by the drag of the held bar.
    pub drag: bool,
    pub request_paint: bool,
    /// Make the container active (`Some(true)`) or inactive (`Some(false)`).
    pub set_active: Option<bool>,
    /// Show the bars at full opacity.
    pub show_bars: bool,
    /// Show the bars and start the timer after which they fade.
    pub reset_fade: bool,
    pub request_anim_frame: bool,
    /// When nobody handled the event, scroll by the wheel.
    pub try_wheel_scroll: bool,
}

/// No action.
pub open spec fn no_actions() -> ScrollActions {
    ScrollActions {
        forward_to_child: false,
        drag: false,
        request_paint: false,
        set_active: None,
        show_bars: false,
        reset_fade: false,
        request_anim_frame: false,
        try_wheel_scroll: false,
    }
}

/// The event is a mouse event.
pub open spec fn is_mouse(input: ScrollInput) -> bool {
    input is MouseMove || input is MouseDown || input is MouseUp
}

/// A mouse event over one of the bars.
pub open spec fn over_bar<O>(input: ScrollInput, hits: BarHits<O>) -> bool {
    is_mouse(input) && (hits.vertical || hits.horizontal)
}

/// The new bar state and the actions of a scroll container for an event.
///
/// While a bar is held, moving the mouse drags it and releasing the button
/// lets it go (the bars start to fade unless the mouse is over one). Over a
/// bar, moving shows the bars and cancels their fade, and pressing grabs the
/// bar under the mouse (the vertical one first). Elsewhere the event goes to
/// the child; leaving a bar starts the fade, and the fade timer asks for an
/// animation frame. A wheel event scrolls when nobody handled it.
pub open spec fn scroll_step<O>(bars: ScrollBars<O>, input: ScrollInput, hits: BarHits<O>) -> (
    ScrollBars<O>,
    ScrollActions,
) {
    let wheel = input is Wheel;
    let none = ScrollActions { try_wheel_scroll: wheel, ..no_actions() };
    if !(bars.held is NotHeld) {
        match input {
            ScrollInput::MouseMove => (bars, ScrollActions { drag: true, request_paint: true, ..none }),
            ScrollInput::MouseUp => {
                let over = over_bar(input, hits);
                (
                    ScrollBars {
                        held: BarHeldState::NotHeld,
                        hovered: if over { bars.hovered } else { BarHoveredState::NotHovered },
                        ..bars
                    },
                    ScrollActions { set_active: Some(false), reset_fade: !over, ..none },
                )
            },
            _ => (bars, none),
        }
    } else if over_bar(input, hits) {
        match input {
            ScrollInput::MouseMove => (
                ScrollBars {
                    hovered: if hits.vertical {
                        BarHoveredState::Vertical
                    } else {
                        BarHoveredState::Horizontal
                    },
                    timer_id: INVALID_TIMER,
                    ..bars
                },
                ScrollActions { show_bars: true, request_paint: true, ..none },
            ),
            ScrollInput::MouseDown => if hits.vertical {
                (
                    ScrollBars { held: BarHeldState::Vertical(hits.vertical_grab), ..bars },
                    ScrollActions { set_active: Some(true), ..none },
                )
            } else {
                (
                    ScrollBars { held: BarHeldState::Horizontal(hits.horizontal_grab), ..bars },
                    ScrollActions { set_active: Some(true), ..none },
                )
            },
            _ => (bars, none),
        }
    } else {
        let fwd = ScrollActions { forward_to_child: true, ..none };
        match input {
            ScrollInput::MouseMove => if !(bars.hovered is NotHovered) {
                (ScrollBars { hovered: BarHoveredState::NotHovered, ..bars }, ScrollActions { reset_fade: true, ..fwd })
            } else {
                (bars, fwd)
            },
            ScrollInput::Timer(id) => if id == bars.timer_id {
                (
                    ScrollBars { timer_id: INVALID_TIMER, ..bars },
                    ScrollActions { request_anim_frame: true, ..fwd },
                )
            } else {
                (bars, fwd)
            },
            _ => (bars, fwd),
        }
    }
}

impl<O: Copy> ScrollBars<O> {
    /// No bar held or hovered, no fade timer.
    pub fn new() -> (b: Self)
        ensures
            b.held is NotHeld,
            b.hovered == BarHoveredState::NotHovered,
            b.timer_id == INVALID_TIMER,
    {
        ScrollBars { held: BarHeldState::NotHeld, hovered: BarHoveredState::NotHovered, timer_id: INVALID_TIMER }
    }

    /// A bar is being dragged.
    pub fn are_held(&self) -> (b: bool)
        ensures
            b == !(self.held is NotHeld),
    {
        match self.held {
            BarHeldState::NotHeld => false,
            _ => true,
        }
    }

    /// Handle an event: update the bar state and say what the container
    /// does (see [`scroll_step`]).
    pub fn event(&mut self, input: ScrollInput, hits: BarHits<O>) -> (a: ScrollActions)
        ensures
            (*final(self), a) == scroll_step(*old(self), input, hits),
    {
        let wheel = match input {
            ScrollInput::Wheel => true,
            _ => false,
        };
        let none = ScrollActions {
            forward_to_child: false,
            drag: false,
            request_paint: false,
            set_active: None,
            show_bars: false,
            reset_fade: false,
            request_anim_frame: false,
            try_wheel_scroll: wheel,
        };
        let is_mouse = match input {
            ScrollInput::MouseMove | ScrollInput::MouseDown | ScrollInput::MouseUp => true,
            _ => false,
        };
        let over = is_mouse && (hits.vertical || hits.horizontal);
        if self.are_held() {
            match input {
                ScrollInput::MouseMove => ScrollActions { drag: true, request_paint: true, ..none },
                ScrollInput::MouseUp => {
                    self.held = BarHeldState::NotHeld;
                    if !over {
                        self.hovered = BarHoveredState::NotHovered;
                    }
                    ScrollActions { set_active: Some(false), reset_fade: !over, ..none }
                },
                _ => none,
            }
        } else if over {
            match input {
                ScrollInput::MouseMove => {
                    self.hovered = if hits.vertical {
                        BarHoveredState::Vertical
                    } else {
                        BarHoveredState::Horizontal
                    };
                    self.timer_id = INVALID_TIMER;
                    ScrollActions { show_bars: true, request_paint: true, ..none }
                },
                ScrollInput::MouseDown => {
                    if hits.vertical {
                        self.held = BarHeldState::Vertical(hits.vertical_grab);
                    } else {
                        self.held = BarHeldState::Horizontal(hits.horizontal_grab);
                    }
                    ScrollActions { set_active: Some(true), ..none }
                },
                _ => none,
            }
        } else {
            let fwd = ScrollActions { forward_to_child: true, ..none };
            match input {
                ScrollInput::MouseMove => {
                    match self.hovered {
                        BarHoveredState::NotHovered => fwd,
                        _ => {
                            self.hovered = BarHoveredState::NotHovered;
                            ScrollActions { reset_fade: true, ..fwd }
                        },
                    }
                },
                ScrollInput::Timer(id) => {
                    if id == self.timer_id {
                        self.timer_id = INVALID_TIMER;
                        ScrollActions { request_anim_frame: true, ..fwd }
                    } else {
                        fwd
                    }
                },
                _ => fwd,
            }
        }
    }

    /// The fade timer was started with this token.
    pub fn fade_timer_started(&mut self, token: u64)
        ensures
            *final(self) == (ScrollBars { timer_id: token, ..*old(self) }),
    {
        self.timer_id = token;
    }

    /// On an animation frame the bars fade only while no fade timer runs
    /// (otherwise they would fade whenever another widget animates).
    pub fn may_fade(&self) -> (b: bool)
        ensures
            b == (self.timer_id == INVALID_TIMER),
    {
        self.timer_id == INVALID_TIMER
    }
}

/// While a bar is dragged no event reaches the child; releasing the mouse
/// always lets the bar go; and a bar is only ever grabbed by pressing the
/// mouse over it.
pub proof fn law_held_bar_captures_the_mouse<O>(bars: ScrollBars<O>, input: ScrollInput, hits: BarHits<O>)
    ensures
        !(bars.held is NotHeld) ==> !scroll_step(bars, input, hits).1.forward_to_child,
        input is MouseUp ==> scroll_step(bars, input, hits).0.held is NotHeld,
        bars.held is NotHeld && !(scroll_step(bars, input, hits).0.held is NotHeld) ==> input is MouseDown
            && (hits.vertical || hits.horizontal),
        bars.held is NotHeld ==> (scroll_step(bars, input, hits).0.held matches BarHeldState::Vertical(g)
            ==> hits.vertical && g == hits.vertical_grab),
{
}

/// Events over a bar never reach the child, and events away from the bars
/// do whenever no bar is held.
pub proof fn law_bars_shield_the_child<O>(bars: ScrollBars<O>, input: ScrollInput, hits: BarHits<O>)
    ensures
        over_bar(input, hits) ==> !scroll_step(bars, input, hits).1.forward_to_child,
        bars.held is NotHeld && !over_bar(input, hits) ==> scroll_step(bars, input, hits).1.forward_to_child,
        scroll_step(bars, input, hits).1.try_wheel_scroll == (input is Wheel),
{
}

/// What the mouse does to the scroll bars. While a bar is held, a move drags
/// it and keeps it held, and a release lets it go and makes the container
/// inactive; the bars then start to fade, and lose their hover, unless the
/// mouse is over one. While none is held: a press on a bar grabs it where
/// the mouse is (the vertical bar when both are hit) and makes the container
/// active; a move over a bar marks it hovered (the vertical one first),
/// shows the bars and cancels their fade; a move away from the bars after
/// hovering one clears the hover and starts the fade; the fade timer asks
/// for an animation frame and is then spent.
pub proof fn law_scroll_bars_follow_mouse<O>(bars: ScrollBars<O>, hits: BarHits<O>, token: u64)
    ensures
        !(bars.held is NotHeld) ==> {
            let (n, a) = scroll_step(bars, ScrollInput::MouseMove, hits);
            &&& n.held == bars.held && a.drag && a.request_paint && !a.forward_to_child
        },
        !(bars.held is NotHeld) ==> {
            let (n, a) = scroll_step(bars, ScrollInput::MouseUp, hits);
            let on_bar = hits.vertical || hits.horizontal;
            &&& n.held is NotHeld && a.set_active == Some(false)
            &&& a.reset_fade == !on_bar
            &&& on_bar ==> n.hovered == bars.hovered
            &&& !on_bar ==> n.hovered == BarHoveredState::NotHovered
        },
        bars.held is NotHeld ==> {
            let (n, a) = scroll_step(bars, ScrollInput::MouseDown, hits);
            &&& hits.vertical ==> n.held == BarHeldState::Vertical(hits.vertical_grab) && a.set_active == Some(true)
            &&& !hits.vertical && hits.horizontal ==> n.held == BarHeldState::Horizontal(hits.horizontal_grab)
                && a.set_active == Some(true)
            &&& !hits.vertical && !hits.horizontal ==> n.held is NotHeld && a.set_active is None && a.forward_to_child
        },
        bars.held is NotHeld ==> {
            let (n, a) = scroll_step(bars, ScrollInput::MouseMove, hits);
            &&& hits.vertical ==> n.hovered == BarHoveredState::Vertical && n.timer_id == INVALID_TIMER && a.show_bars
            &&& !hits.vertical && hits.horizontal ==> n.hovered == BarHoveredState::Horizontal && n.timer_id
                == INVALID_TIMER && a.show_bars
            &&& !hits.vertical && !hits.horizontal ==> n.hovered == BarHoveredState::NotHovered && a.forward_to_child
                && a.reset_fade == !(bars.hovered is NotHovered) && !a.show_bars
        },
        bars.held is NotHeld ==> {
            let (n, a) = scroll_step(bars, ScrollInput::Timer(token), hits);
            &&& a.forward_to_child
            &&& a.request_anim_frame == (token == bars.timer_id)
            &&& token == bars.timer_id ==> n.timer_id == INVALID_TIMER
            &&& token != bars.timer_id ==> n.timer_id == bars.timer_id
        },
        bars.held is NotHeld ==> scroll_step(bars, ScrollInput::Wheel, hits).1.forward_to_child
            && scroll_step(bars, ScrollInput::Wheel, hits).1.try_wheel_scroll,
{
}

} // verus!
