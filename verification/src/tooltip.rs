use vstd::prelude::*;
use crate::ids::INVALID_TIMER;
use crate::event::EventKind;

verus! {

/// How long the pointer must rest before the tooltip shows, in nanoseconds.
pub const TOOLTIP_DELAY_NANOS: u64 = 500_000_000;

/// The slack allowed when a timer fires a little early, in nanoseconds.
pub const TOOLTIP_SLACK_NANOS: u64 = 20_000_000;

/// What the tooltip controller sees of an event. Times are in nanoseconds
/// from a fixed origin.
#[derive(Clone, Copy, Debug, PartialEq, Eq, Structural)]
pub enum TooltipEvent {
    MouseDown,
    MouseUp,
    /// The mouse moved; `hot` says whether it is over the widget.
    MouseMove { hot: bool, now: u64 },
    /// A timer fired.
    Timer { token: u64, now: u64 },
    Other,
}

/// What the tooltip controller asks of its context.
#[derive(Clone, Copy, Debug, PartialEq, Eq, Structural)]
pub enum TooltipAction {
    Nothing,
    /// Start a timer of this many nanoseconds, and report its token with
    /// [`TooltipState::timer_started`].
    RequestTimer(u64),
    /// Show the tooltip at the last mouse position.
    Show,
}

/// The state a tooltip controller keeps between events.
#[derive(Clone, Copy, Debug, PartialEq, Eq, Structural)]
pub struct TooltipState {
    /// The pending timer, or `INVALID_TIMER`.
    pub timer: u64,
    /// When the mouse last moved over the widget.
    pub last_mouse_move: Option<u64>,
}

/// The time that `now` lies after `since`, or zero when it lies before.
pub open spec fn elapsed_since(now: u64, since: u64) -> u64 {
    if now >= since {
        (now - since) as u64
    } else {
        0
    }
}

/// The state and action that follow `ev` in state `s`.
///
/// A click forgets any pending tooltip. A move over the widget records its
/// time and starts the delay timer unless one is pending; a move elsewhere
/// forgets the time. When the pending timer fires, the tooltip shows if the
/// mouse has rested long enough (the delay less the slack) since its last
/// move, and otherwise the timer is started again for the rest of the delay.
pub open spec fn tooltip_step(s: TooltipState, ev: TooltipEvent) -> (TooltipState, TooltipAction) {
    match ev {
        TooltipEvent::MouseDown | TooltipEvent::MouseUp => (
            TooltipState { timer: INVALID_TIMER, last_mouse_move: None },
            TooltipAction::Nothing,
        ),
        TooltipEvent::MouseMove { hot, now } => if hot {
            (
                TooltipState { last_mouse_move: Some(now), ..s },
                if s.timer == INVALID_TIMER {
                    TooltipAction::RequestTimer(TOOLTIP_DELAY_NANOS)
                } else {
                    TooltipAction::Nothing
                },
            )
        } else {
            (TooltipState { last_mouse_move: None, ..s }, TooltipAction::Nothing)
        },
        TooltipEvent::Timer { token, now } => if token == s.timer {
            match s.last_mouse_move {
                None => (
                    TooltipState { timer: INVALID_TIMER, last_mouse_move: None },
                    TooltipAction::Nothing,
                ),
                Some(t) => {
                    let e = elapsed_since(now, t);
                    if e > TOOLTIP_DELAY_NANOS - TOOLTIP_SLACK_NANOS {
                        (
                            TooltipState { timer: INVALID_TIMER, last_mouse_move: None },
                            TooltipAction::Show,
                        )
                    } else {
                        (
                            TooltipState { timer: INVALID_TIMER, last_mouse_move: Some(t) },
                            TooltipAction::RequestTimer((TOOLTIP_DELAY_NANOS - e) as u64),
                        )
                    }
                },
            }
        } else {
            (s, TooltipAction::Nothing)
        },
        TooltipEvent::Other => (s, TooltipAction::Nothing),
    }
}

impl TooltipState {
    /// No timer, no mouse movement seen.
    pub fn new() -> (s: Self)
        ensures
            s == (TooltipState { timer: INVALID_TIMER, last_mouse_move: None }),
    {
        TooltipState { timer: INVALID_TIMER, last_mouse_move: None }
    }

    /// Record the token of the timer that the last `RequestTimer` started.
    pub fn timer_started(&mut self, token: u64)
        ensures
            *final(self) == (TooltipState { timer: token, ..*old(self) }),
    {
        self.timer = token;
    }

    /// React to an event: the state and action are those of [`tooltip_step`].
    pub fn event(&mut self, ev: TooltipEvent) -> (a: TooltipAction)
        ensures
            (*final(self), a) == tooltip_step(*old(self), ev),
    {
        match ev {
            TooltipEvent::MouseDown | TooltipEvent::MouseUp => {
                self.timer = INVALID_TIMER;
                self.last_mouse_move = None;
                TooltipAction::Nothing
            },
            TooltipEvent::MouseMove { hot, now } => {
                if hot {
                    let a = if self.timer == INVALID_TIMER {
                        TooltipAction::RequestTimer(TOOLTIP_DELAY_NANOS)
                    } else {
                        TooltipAction::Nothing
                    };
                    self.last_mouse_move = Some(now);
                    a
                } else {
                    self.last_mouse_move = None;
                    TooltipAction::Nothing
                }
            },
            TooltipEvent::Timer { token, now } => {
                if token == self.timer {
                    self.timer = INVALID_TIMER;
                    match self.last_mouse_move {
                        None => TooltipAction::Nothing,
                        Some(t) => {
                            let elapsed = if now >= t {
                                now - t
                            } else {
                                0
                            };
                            let check_delay = TOOLTIP_DELAY_NANOS - TOOLTIP_SLACK_NANOS;
                            if elapsed > check_delay {
                                self.last_mouse_move = None;
                                TooltipAction::Show
                            } else {
                                TooltipAction::RequestTimer(TOOLTIP_DELAY_NANOS - elapsed)
                            }
                        },
                    }
                } else {
                    TooltipAction::Nothing
                }
            },
            TooltipEvent::Other => TooltipAction::Nothing,
        }
    }
}

/// A tooltip shows only when the pending timer fires after the mouse has
/// rested over the widget for the delay less the slack; and once the mouse has
/// been clicked, no timer shows it until the mouse moves over the widget again.
pub proof fn law_tooltip_shows_after_rest(s: TooltipState, ev: TooltipEvent)
    ensures
        tooltip_step(s, ev).1 == TooltipAction::Show ==> {
            &&& ev matches TooltipEvent::Timer { token, now }
            &&& token == s.timer
            &&& s.last_mouse_move matches Some(t)
            &&& elapsed_since(now, t) > TOOLTIP_DELAY_NANOS - TOOLTIP_SLACK_NANOS
        },
        (ev is MouseDown || ev is MouseUp) ==> forall|ev2: TooltipEvent|
            !(ev2 is MouseMove) ==> tooltip_step(tooltip_step(s, ev).0, ev2).1 != TooltipAction::Show,
{
}

/// When the pending timer fires and the mouse last moved over the widget at
/// `t`: if it has rested longer than the delay less the slack, the tooltip
/// shows and the time is forgotten; otherwise the time of the last move is
/// kept and a timer is asked for the rest of the delay. Either way no timer
/// is pending afterwards.
pub proof fn law_timer_checks_rest(s: TooltipState, token: u64, now: u64, t: u64)
    requires
        token == s.timer,
        s.last_mouse_move == Some(t),
    ensures
        ({
            let (n, a) = tooltip_step(s, TooltipEvent::Timer { token, now });
            let rested: int = if now >= t { now - t } else { 0 };
            &&& n.timer == INVALID_TIMER
            &&& rested > TOOLTIP_DELAY_NANOS - TOOLTIP_SLACK_NANOS ==> a == TooltipAction::Show
                && n.last_mouse_move is None
            &&& rested <= TOOLTIP_DELAY_NANOS - TOOLTIP_SLACK_NANOS ==> n.last_mouse_move == Some(t) && a
                == TooltipAction::RequestTimer((TOOLTIP_DELAY_NANOS - rested) as u64)
        }),
{
}

/// A timer that fires early is asked for again, and when that second timer
/// fires once the mouse has rested longer than the delay less the slack since
/// its last move, the tooltip shows.
pub proof fn law_early_timer_then_show(s: TooltipState, first: u64, second: u64, now1: u64, now2: u64, t: u64)
    requires
        first == s.timer,
        s.last_mouse_move == Some(t),
        now1 >= t,
        now1 - t <= TOOLTIP_DELAY_NANOS - TOOLTIP_SLACK_NANOS,
        now2 >= t,
        now2 - t > TOOLTIP_DELAY_NANOS - TOOLTIP_SLACK_NANOS,
    ensures
        ({
            let (n1, a1) = tooltip_step(s, TooltipEvent::Timer { token: first, now: now1 });
            let started = TooltipState { timer: second, ..n1 };
            &&& a1 is RequestTimer
            &&& tooltip_step(started, TooltipEvent::Timer { token: second, now: now2 }).1 == TooltipAction::Show
        }),
{
}

/// A move over the widget records its time and asks for the delay timer
/// exactly when none is pending; a move elsewhere forgets the time; a click
/// forgets both the time and the pending timer; a timer that is not the
/// pending one, or another event, changes nothing; the pending timer firing
/// with no move recorded only clears the timer.
pub proof fn law_moves_and_clicks(s: TooltipState, ev: TooltipEvent)
    ensures
        ev matches TooltipEvent::MouseMove { hot, now } ==> {
            let (n, a) = tooltip_step(s, ev);
            &&& n.timer == s.timer
            &&& hot ==> n.last_mouse_move == Some(now) && (a == TooltipAction::RequestTimer(TOOLTIP_DELAY_NANOS)
                <==> s.timer == INVALID_TIMER) && (a is RequestTimer || a is Nothing)
            &&& !hot ==> n.last_mouse_move is None && a == TooltipAction::Nothing
        },
        (ev is MouseDown || ev is MouseUp) ==> tooltip_step(s, ev) == (
            TooltipState { timer: INVALID_TIMER, last_mouse_move: None },
            TooltipAction::Nothing,
        ),
        ev matches TooltipEvent::Timer { token, now } && token != s.timer ==> tooltip_step(s, ev) == (
            s,
            TooltipAction::Nothing,
        ),
        ev is Other ==> tooltip_step(s, ev) == (s, TooltipAction::Nothing),
        ev matches TooltipEvent::Timer { token, now } && token == s.timer && s.last_mouse_move is None
            ==> tooltip_step(s, ev) == (
            TooltipState { timer: INVALID_TIMER, last_mouse_move: None },
            TooltipAction::Nothing,
        ),
{
}

/// Whether an event dismisses a shown tooltip: the overlay that holds the
/// tooltip closes on any mouse press, release, move or wheel, and on any key
/// press or release.
pub fn overlay_dismisses(evt: &EventKind) -> (b: bool)
    ensures
        b == (*evt == EventKind::MouseDown || *evt == EventKind::MouseUp || *evt == EventKind::MouseMove
            || *evt == EventKind::Wheel || *evt == EventKind::KeyDown || *evt == EventKind::KeyUp),
        b ==> evt.is_user_input(),
{
    match evt {
        EventKind::MouseDown
        | EventKind::MouseUp
        | EventKind::MouseMove
        | EventKind::Wheel
        | EventKind::KeyDown
        | EventKind::KeyUp => true,
        _ => false,
    }
}

} // verus!
