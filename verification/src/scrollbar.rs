use vstd::prelude::*;

verus! {

/// The default length of the scroll bar fade, in nanoseconds.
pub const DEFAULT_FADE_NANOS: u64 = 500_000_000;

/// The timing of a scroll bar fade animation: how long it has run, how long
/// it waits before it starts moving, how long it moves, and whether it has
/// reached its target. The values it moves between are kept by its owner.
#[derive(Debug, Clone, Copy, PartialEq, Eq, Structural)]
pub struct AnimationClock {
    pub elapsed_time: u64,
    pub delay: u64,
    pub done: bool,
    pub duration: u64,
}

impl AnimationClock {
    /// A clock at its start, without delay, for the default fade length.
    pub open spec fn default_spec() -> AnimationClock {
        AnimationClock { elapsed_time: 0, delay: 0, done: false, duration: DEFAULT_FADE_NANOS }
    }
}

impl Default for AnimationClock {
    fn default() -> (c: Self)
        ensures
            c == (AnimationClock {
                elapsed_time: 0,
                delay: 0,
                done: false,
                duration: DEFAULT_FADE_NANOS,
            }),
    {
        AnimationClock { elapsed_time: 0, delay: 0, done: false, duration: DEFAULT_FADE_NANOS }
    }
}

impl AnimationClock {
    /// Advance by `interval`. Returns the time since the delay ended when the
    /// animation moves on this frame; it holds still (returns `None`) on an
    /// empty frame and while the delay lasts.
    pub fn tick(&mut self, interval: u64) -> (moved: Option<u64>)
        requires
            old(self).elapsed_time + interval <= u64::MAX,
        ensures
            *final(self) == (AnimationClock {
                elapsed_time: (old(self).elapsed_time + interval) as u64,
                ..*old(self)
            }),
            moved == if interval == 0 || final(self).elapsed_time < final(self).delay {
                None
            } else {
                Some((final(self).elapsed_time - final(self).delay) as u64)
            },
    {
        self.elapsed_time = self.elapsed_time + interval;
        if interval == 0 || self.elapsed_time < self.delay {
            None
        } else {
            Some(self.elapsed_time - self.delay)
        }
    }

    /// The animation has reached its target.
    pub fn finish(&mut self)
        ensures
            *final(self) == (AnimationClock { done: true, ..*old(self) }),
    {
        self.done = true;
    }

    /// Start again from the beginning.
    pub fn reset(&mut self)
        ensures
            *final(self) == (AnimationClock { elapsed_time: 0, done: false, ..*old(self) }),
    {
        self.elapsed_time = 0;
        self.done = false;
    }

    /// The clock part of turning the animation around is defined: a running
    /// animation has a non-zero total length and has not run two full
    /// lengths (the computation divides by the total length and subtracts the
    /// whole lengths run from 1).
    pub open spec fn can_reverse(self) -> bool {
        !self.done && self.elapsed_time > 0 ==> {
            &&& self.duration + self.delay <= u64::MAX
            &&& self.duration + self.delay > 0
            &&& self.elapsed_time < 2 * (self.duration + self.delay)
        }
    }

    /// Whether the clock part of turning the animation around is defined
    /// (see [`AnimationClock::can_reverse`]).
    pub fn can_reverse_now(&self) -> (b: bool)
        ensures
            b == self.can_reverse(),
    {
        if self.done || self.elapsed_time == 0 {
            true
        } else if self.duration > u64::MAX - self.delay {
            false
        } else {
            let total = self.duration + self.delay;
            total > 0 && self.elapsed_time / 2 < total
        }
    }

    /// The clock after turning the animation around: a finished animation
    /// starts again; a running one jumps to the end of its delay and duration
    /// when it is within them, and back to 0 when it ran one full length
    /// more. The whole lengths run are counted by integer division, so a
    /// reversal in the middle of a fade does not replay just the part already
    /// played: the clock stands at the full length at once, and the value
    /// reaches its new target on the next frame. `at_target` is whether the animated value already equals the new
    /// target, which decides whether the animation is done.
    pub open spec fn reversed(self, at_target: bool) -> AnimationClock {
        let total = self.duration + self.delay;
        let elapsed = if self.done {
            0
        } else if self.elapsed_time == 0 {
            0
        } else if self.elapsed_time < total {
            total as u64
        } else {
            0
        };
        AnimationClock { elapsed_time: elapsed, done: at_target, ..self }
    }

    /// Turn the animation around (see [`AnimationClock::reversed`]); the
    /// values it moves between are swapped by the owner, which also tells
    /// whether the value now stands at the new target.
    pub fn reverse(&mut self, at_target: bool)
        requires
            old(self).can_reverse(),
        ensures
            *final(self) == old(self).reversed(at_target),
    {
        if self.done {
            self.reset();
        } else if self.elapsed_time > 0 {
            let total_time = self.duration + self.delay;
            let whole = self.elapsed_time / total_time;
            assert(whole <= 1) by (nonlinear_arith)
                requires
                    whole == self.elapsed_time / total_time,
                    self.elapsed_time < 2 * total_time,
                    total_time > 0,
            ;
            assert(self.elapsed_time < total_time ==> whole == 0) by (nonlinear_arith)
                requires
                    whole == self.elapsed_time / total_time,
                    total_time > 0,
            ;
            assert(self.elapsed_time >= total_time ==> whole == 1) by (nonlinear_arith)
                requires
                    whole == self.elapsed_time / total_time,
                    self.elapsed_time < 2 * total_time,
                    total_time > 0,
            ;
            let k = 1 - whole;
            assert(total_time * k == if k == 1 { total_time } else { 0 }) by (nonlinear_arith)
                requires
                    k == 0 || k == 1,
            ;
            self.elapsed_time = total_time * k;
        }
        self.done = at_target;
    }
}

/// After turning around, the clock never stands beyond the end of the
/// delay and duration, and a turned-around animation can be turned around
/// again.
pub proof fn law_reverse_keeps_clock_in_range(c: AnimationClock, at_target: bool, again: bool)
    requires
        c.can_reverse(),
    ensures
        c.reversed(at_target).elapsed_time <= c.duration + c.delay,
        c.reversed(at_target).can_reverse(),
        c.reversed(at_target).reversed(again).elapsed_time <= c.duration + c.delay,
{
}

/// Whether the scroll bar is shown.
#[derive(Debug, Clone, Copy, PartialEq, Eq, Structural)]
pub enum ScrollPolicy {
    On,
    Off,
    Auto,
}

/// The fade of a scroll bar: the clock of its opacity animation, the
/// direction of the animation (towards full opacity, or towards none),
/// whether the mouse is over the bar, and the policy.
#[derive(Debug, Clone, Copy, PartialEq, Eq, Structural)]
pub struct ScrollbarFade {
    pub clock: AnimationClock,
    /// The animation runs towards full opacity.
    pub fading_in: bool,
    pub is_hot: bool,
    pub policy: ScrollPolicy,
}

/// The events a scroll bar tells apart.
#[derive(Debug, Clone, Copy, PartialEq, Eq, Structural)]
pub enum ScrollbarInput {
    /// An animation frame, with the time since the last one in nanoseconds.
    AnimFrame(u64),
    /// The scroll command; `for_this` says whether it names this bar's state.
    ScrollCommand { for_this: bool },
    HotChanged(bool),
    MouseDown,
    MouseMoved,
    MouseUp,
    Size,
    /// A wheel event; `enabled` says whether the state takes wheel scrolling.
    Wheel { enabled: bool },
    Other,
}

/// What a scroll bar does in answer to an event.
#[derive(Debug, Clone, Copy, PartialEq, Eq, Structural)]
pub struct ScrollbarActions {
    pub request_anim_frame: bool,
    /// Advance the opacity animation by the frame's interval.
    pub tick: bool,
    /// Hand the pointer event to the thumb: hit-test and page on a press,
    /// drag on a move, stop tracking on a release.
    pub handle_pointer: bool,
    /// Scroll by the wheel's delta.
    pub scroll_by_wheel: bool,
}

/// No action.
pub open spec fn no_scrollbar_actions() -> ScrollbarActions {
    ScrollbarActions { request_anim_frame: false, tick: false, handle_pointer: false, scroll_by_wheel: false }
}

impl ScrollbarFade {
    /// The fade after showing the bar: a fade out turns around and runs at
    /// once; a fade in goes on as it is. `at_start` says whether the opacity
    /// stands where the current fade started.
    pub open spec fn shown(self, at_start: bool) -> ScrollbarFade {
        if self.fading_in {
            self
        } else {
            ScrollbarFade {
                clock: AnimationClock { delay: 0, ..self.clock.reversed(at_start) },
                fading_in: true,
                ..self
            }
        }
    }

    /// The fade after hiding the bar: a fade in turns around and runs after
    /// the fade delay (given in milliseconds); a fade out goes on as it is.
    pub open spec fn hidden(self, fade_delay_millis: u64, at_start: bool) -> ScrollbarFade {
        if !self.fading_in {
            self
        } else {
            ScrollbarFade {
                clock: AnimationClock {
                    delay: (fade_delay_millis * 1_000_000) as u64,
                    ..self.clock.reversed(at_start)
                },
                fading_in: false,
                ..self
            }
        }
    }

    /// The fade and the actions of a scroll bar for an event. `visible`
    /// says whether the bar's opacity is above zero.
    pub open spec fn step(
        self,
        input: ScrollbarInput,
        visible: bool,
        at_start: bool,
        fade_delay_millis: u64,
    ) -> (ScrollbarFade, ScrollbarActions) {
        let none = no_scrollbar_actions();
        let frame = ScrollbarActions { request_anim_frame: true, ..none };
        if self.policy == ScrollPolicy::Off {
            (self, none)
        } else {
            match input {
                ScrollbarInput::AnimFrame(_) => if !self.clock.done {
                    (self, ScrollbarActions { tick: true, ..frame })
                } else if !self.is_hot && visible {
                    (self.hidden(fade_delay_millis, at_start), frame)
                } else {
                    (self, none)
                },
                ScrollbarInput::ScrollCommand { for_this } => if for_this {
                    (self.shown(at_start), frame)
                } else {
                    (self, none)
                },
                ScrollbarInput::HotChanged(hot) => {
                    let s = ScrollbarFade { is_hot: hot, ..self };
                    if hot {
                        (s.shown(at_start), none)
                    } else {
                        (s.hidden(fade_delay_millis, at_start), frame)
                    }
                },
                ScrollbarInput::MouseDown => (self, ScrollbarActions { handle_pointer: visible, ..none }),
                ScrollbarInput::MouseMoved | ScrollbarInput::MouseUp => (
                    self,
                    ScrollbarActions { handle_pointer: true, ..none },
                ),
                ScrollbarInput::Size => (self.shown(at_start), frame),
                ScrollbarInput::Wheel { enabled } => if enabled {
                    (self.shown(at_start), ScrollbarActions { scroll_by_wheel: true, ..frame })
                } else {
                    (self, none)
                },
                ScrollbarInput::Other => (self, none),
            }
        }
    }

    /// A fade may turn around: its clock can be reversed and the fade delay
    /// in nanoseconds fits.
    pub open spec fn can_turn(self, fade_delay_millis: u64) -> bool {
        &&& self.clock.can_reverse()
        &&& fade_delay_millis * 1_000_000 <= u64::MAX
    }

    /// A bar that is not hot, fades in, and shows when the policy allows.
    pub fn new() -> (f: Self)
        ensures
            f.clock == AnimationClock::default_spec(),
            f.fading_in,
            !f.is_hot,
            f.policy == ScrollPolicy::Auto,
    {
        ScrollbarFade { clock: AnimationClock::default(), fading_in: true, is_hot: false, policy: ScrollPolicy::Auto }
    }

    /// Builder-style method to set the policy.
    pub fn scroll_policy(self, policy: ScrollPolicy) -> (f: Self)
        ensures
            f == (ScrollbarFade { policy, ..self }),
    {
        ScrollbarFade { policy, ..self }
    }

    /// Showing the bar is defined: a fade out that turns around has a clock
    /// that can be reversed.
    pub open spec fn can_show(self) -> bool {
        !self.fading_in ==> self.clock.can_reverse()
    }

    /// Fading the bar out is defined: a fade in that turns around has a clock
    /// that can be reversed, and the fade delay in nanoseconds fits.
    pub open spec fn can_fade_out(self, fade_delay_millis: u64) -> bool {
        self.fading_in ==> self.can_turn(fade_delay_millis)
    }

    /// Handling `input` is defined: where the event shows the bar, showing is
    /// defined, and where it fades the bar out, fading out is defined. Events
    /// that neither show nor fade out the bar are always defined.
    pub open spec fn can_handle(self, input: ScrollbarInput, visible: bool, fade_delay_millis: u64) -> bool {
        self.policy != ScrollPolicy::Off ==> match input {
            ScrollbarInput::AnimFrame(_) => self.clock.done && !self.is_hot && visible ==> self.can_fade_out(
                fade_delay_millis,
            ),
            ScrollbarInput::ScrollCommand { for_this } => for_this ==> self.can_show(),
            ScrollbarInput::HotChanged(hot) => if hot {
                self.can_show()
            } else {
                self.can_fade_out(fade_delay_millis)
            },
            ScrollbarInput::Size => self.can_show(),
            ScrollbarInput::Wheel { enabled } => enabled ==> self.can_show(),
            _ => true,
        }
    }

    /// Whether handling `input` is defined (see [`ScrollbarFade::can_handle`]).
    pub fn handles(&self, input: ScrollbarInput, visible: bool, fade_delay_millis: u64) -> (b: bool)
        ensures
            b == self.can_handle(input, visible, fade_delay_millis),
    {
        let show_ok = self.fading_in || self.clock.can_reverse_now();
        let fade_out_ok = !self.fading_in || (self.clock.can_reverse_now() && fade_delay_millis <= u64::MAX / 1_000_000);
        if self.policy == ScrollPolicy::Off {
            return true;
        }
        match input {
            ScrollbarInput::AnimFrame(_) => !(self.clock.done && !self.is_hot && visible) || fade_out_ok,
            ScrollbarInput::ScrollCommand { for_this } => !for_this || show_ok,
            ScrollbarInput::HotChanged(hot) => if hot {
                show_ok
            } else {
                fade_out_ok
            },
            ScrollbarInput::Size => show_ok,
            ScrollbarInput::Wheel { enabled } => !enabled || show_ok,
            _ => true,
        }
    }

    /// Show the bar (see [`ScrollbarFade::shown`]).
    pub fn show(&mut self, at_start: bool)
        requires
            old(self).can_show(),
        ensures
            *final(self) == old(self).shown(at_start),
    {
        if !self.fading_in {
            self.clock.reverse(at_start);
            self.fading_in = true;
            self.clock.delay = 0;
        }
    }

    /// Fade the bar out (see [`ScrollbarFade::hidden`]).
    pub fn fade_out(&mut self, fade_delay_millis: u64, at_start: bool)
        requires
            old(self).can_fade_out(fade_delay_millis),
        ensures
            *final(self) == old(self).hidden(fade_delay_millis, at_start),
    {
        if self.fading_in {
            self.clock.reverse(at_start);
            self.fading_in = false;
            self.clock.delay = fade_delay_millis * 1_000_000;
        }
    }

    /// Handle an event (see [`ScrollbarFade::step`]).
    pub fn event(&mut self, input: ScrollbarInput, visible: bool, at_start: bool, fade_delay_millis: u64) -> (a: ScrollbarActions)
        requires
            old(self).can_handle(input, visible, fade_delay_millis),
        ensures
            (*final(self), a) == old(self).step(input, visible, at_start, fade_delay_millis),
    {
        let none = ScrollbarActions { request_anim_frame: false, tick: false, handle_pointer: false, scroll_by_wheel: false };
        let frame = ScrollbarActions { request_anim_frame: true, ..none };
        if self.policy == ScrollPolicy::Off {
            return none;
        }
        match input {
            ScrollbarInput::AnimFrame(_) => {
                if !self.clock.done {
                    ScrollbarActions { tick: true, ..frame }
                } else if !self.is_hot && visible {
                    self.fade_out(fade_delay_millis, at_start);
                    frame
                } else {
                    none
                }
            },
            ScrollbarInput::ScrollCommand { for_this } => {
                if for_this {
                    self.show(at_start);
                    frame
                } else {
                    none
                }
            },
            ScrollbarInput::HotChanged(hot) => {
                self.is_hot = hot;
                if hot {
                    self.show(at_start);
                    none
                } else {
                    self.fade_out(fade_delay_millis, at_start);
                    frame
                }
            },
            ScrollbarInput::MouseDown => ScrollbarActions { handle_pointer: visible, ..none },
            ScrollbarInput::MouseMoved | ScrollbarInput::MouseUp => ScrollbarActions { handle_pointer: true, ..none },
            ScrollbarInput::Size => {
                self.show(at_start);
                frame
            },
            ScrollbarInput::Wheel { enabled } => {
                if enabled {
                    self.show(at_start);
                    ScrollbarActions { scroll_by_wheel: true, ..frame }
                } else {
                    none
                }
            },
            ScrollbarInput::Other => none,
        }
    }
}

/// Showing a shown bar, or hiding a hidden one, changes nothing; showing
/// and hiding always leave the direction they promise. A bar whose policy
/// is off ignores every event.
pub proof fn law_show_and_hide_settle(f: ScrollbarFade, at_start: bool, again: bool, delay: u64, input: ScrollbarInput, visible: bool)
    ensures
        f.shown(at_start).fading_in,
        f.shown(at_start).shown(again) == f.shown(at_start),
        !f.hidden(delay, at_start).fading_in,
        f.hidden(delay, at_start).hidden(delay, again) == f.hidden(delay, at_start),
        f.policy == ScrollPolicy::Off ==> f.step(input, visible, at_start, delay) == (f, no_scrollbar_actions()),
{
}

/// What each event does to a scroll bar whose policy is not off. Showing
/// events (the scroll command for this bar, a resize, an enabled wheel, the
/// mouse entering) leave the bar fading in; the mouse leaving leaves it
/// fading out and asks for a frame; the hot flag follows the hot change.
/// A frame advances a running fade; once the fade is done, a frame starts to
/// hide a visible bar that the mouse is not over. Pointer events reach the
/// thumb (a press only while the bar is visible), an enabled wheel scrolls,
/// and nothing else changes the bar.
pub proof fn law_scrollbar_events(f: ScrollbarFade, input: ScrollbarInput, visible: bool, at_start: bool, delay: u64)
    requires
        f.policy != ScrollPolicy::Off,
    ensures
        ({
            let (n, a) = f.step(input, visible, at_start, delay);
            &&& (input == ScrollbarInput::ScrollCommand { for_this: true } || input == ScrollbarInput::Size || input
                == ScrollbarInput::Wheel { enabled: true } || input == ScrollbarInput::HotChanged(true)) ==> n.fading_in
            &&& input == ScrollbarInput::HotChanged(false) ==> !n.fading_in && a.request_anim_frame
            &&& input matches ScrollbarInput::HotChanged(h) ==> n.is_hot == h
            &&& !(input is HotChanged) ==> n.is_hot == f.is_hot
            &&& n.policy == f.policy
            &&& input is AnimFrame ==> a.tick == !f.clock.done && a.request_anim_frame == (!f.clock.done || (
                !f.is_hot && visible))
            &&& input is AnimFrame && f.clock.done && !f.is_hot && visible ==> !n.fading_in
            &&& input is AnimFrame && !(f.clock.done && !f.is_hot && visible) ==> n == f
            &&& a.handle_pointer == (input is MouseMoved || input is MouseUp || (input is MouseDown && visible))
            &&& a.scroll_by_wheel == (input == ScrollbarInput::Wheel { enabled: true })
            &&& (input is MouseDown || input is MouseMoved || input is MouseUp || input is Other || input
                == ScrollbarInput::Wheel { enabled: false } || input == ScrollbarInput::ScrollCommand { for_this: false })
                ==> n == f && !a.request_anim_frame
        }),
{
}

/// Turning a fade around: showing a fading-out bar starts the fade in at once
/// (no delay), hiding a fading-in bar waits for the fade delay (given in
/// milliseconds) before it moves; the clock's length is kept, and the fade is
/// done exactly when the opacity already stands at the new target.
pub proof fn law_turning_the_fade(f: ScrollbarFade, at_start: bool, delay: u64)
    ensures
        !f.fading_in ==> f.shown(at_start).clock.delay == 0 && f.shown(at_start).clock.duration == f.clock.duration
            && f.shown(at_start).clock.done == at_start,
        f.fading_in ==> f.hidden(delay, at_start).clock.delay == (delay * 1_000_000) as u64
            && f.hidden(delay, at_start).clock.duration == f.clock.duration && f.hidden(delay, at_start).clock.done
            == at_start,
        f.clock.done ==> f.clock.reversed(at_start).elapsed_time == 0,
        f.clock.elapsed_time == 0 ==> f.clock.reversed(at_start).elapsed_time == 0,
{
}

} // verus!
