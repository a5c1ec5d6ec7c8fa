use vstd::prelude::*;
use std::marker::PhantomData;

verus! {

/// A progress bar, displaying a numeric progress value.
#[derive(Debug, Clone, Copy, Default)]
pub struct ProgressBar;

impl ProgressBar {
    /// Return a new `ProgressBar`.
    pub fn new() -> (p: ProgressBar)
        ensures
            p == ProgressBar,
    {
        ProgressBar
    }
}

/// A group of radio buttons.
#[derive(Debug, Clone, Copy)]
pub struct RadioGroup;

/// A single radio button: it selects `variant` when clicked. `L` is its label.
pub struct Radio<T, L> {
    variant: T,
    label: L,
}

/// What a radio button does in answer to a press or a release.
#[derive(Debug, Clone, Copy, PartialEq, Eq, Structural)]
pub struct RadioReaction {
    pub set_active: Option<bool>,
    /// The data becomes the button's variant.
    pub select: bool,
    pub request_paint: bool,
}

impl<T, L> Radio<T, L> {
    /// The value this button selects.
    pub closed spec fn spec_variant(&self) -> T {
        self.variant
    }

    /// The label.
    pub closed spec fn spec_label(&self) -> L {
        self.label
    }

    /// Create a lone radio button from a label and a variant.
    pub fn new(label: L, variant: T) -> (r: Self)
        ensures
            r.spec_variant() == variant,
            r.spec_label() == label,
    {
        Radio { variant, label }
    }

    /// The value this button selects.
    pub fn variant(&self) -> (v: &T)
        ensures
            *v == self.spec_variant(),
    {
        &self.variant
    }

    /// A press makes an enabled button active.
    pub fn mouse_down(disabled: bool) -> (r: RadioReaction)
        ensures
            r == (RadioReaction { set_active: if disabled { None } else { Some(true) }, select: false, request_paint: !disabled }),
    {
        if disabled {
            RadioReaction { set_active: None, select: false, request_paint: false }
        } else {
            RadioReaction { set_active: Some(true), select: false, request_paint: true }
        }
    }

    /// A release ends the press; it selects the variant when the button was
    /// pressed, is enabled, and the mouse is still over it.
    pub fn mouse_up(active: bool, disabled: bool, hot: bool) -> (r: RadioReaction)
        ensures
            r == (RadioReaction {
                set_active: Some(false),
                select: active && !disabled && hot,
                request_paint: active && !disabled,
            }),
    {
        let pressed = active && !disabled;
        RadioReaction { set_active: Some(false), select: pressed && hot, request_paint: pressed }
    }
}

/// A widget that turns its child by a number of quarter turns.
pub struct Rotated<W> {
    child: W,
    quarter_turns: u8,
}

impl<W> Rotated<W> {
    /// The number of clockwise quarter turns.
    pub closed spec fn spec_quarter_turns(&self) -> u8 {
        self.quarter_turns
    }

    /// The child widget.
    pub closed spec fn spec_child(&self) -> W {
        self.child
    }

    pub fn new(child: W, quarter_turns: u8) -> (r: Self)
        ensures
            r.spec_child() == child,
            r.spec_quarter_turns() == quarter_turns,
    {
        Rotated { child, quarter_turns }
    }

    /// The number of clockwise quarter turns.
    pub fn quarter_turns(&self) -> (q: u8)
        ensures
            q == self.spec_quarter_turns(),
    {
        self.quarter_turns
    }

    /// A pair of dimensions as the rotation orients them: an odd number of
    /// quarter turns swaps width and height, an even number keeps them.
    pub open spec fn oriented<N>(&self, width: N, height: N) -> (N, N) {
        if self.spec_quarter_turns() % 2 == 0 {
            (width, height)
        } else {
            (height, width)
        }
    }

    /// Orient a pair of dimensions: an odd number of quarter turns swaps
    /// width and height, an even number keeps them.
    pub fn flip<N>(&self, width: N, height: N) -> (r: (N, N))
        ensures
            r == self.oriented(width, height),
            self.spec_quarter_turns() % 2 == 0 ==> r == (width, height),
            self.spec_quarter_turns() % 2 == 1 ==> r == (height, width),
    {
        if self.quarter_turns % 2 == 0 {
            (width, height)
        } else {
            (height, width)
        }
    }

    /// The rotation, in quarter turns in `0..4`, that painting applies.
    pub fn effective_quarter_turns(&self) -> (q: u8)
        ensures
            q == self.spec_quarter_turns() % 4,
    {
        self.quarter_turns % 4
    }
}

/// Orienting twice gives back the dimensions it started from.
pub proof fn law_rotated_flip_is_involution<W, N>(r: Rotated<W>, width: N, height: N)
    ensures
        r.oriented(r.oriented(width, height).0, r.oriented(width, height).1) == (width, height),
{
}

/// A widget that edits a value through its text representation.
pub struct Parse<W> {
    widget: W,
    state: String,
}

impl<W> Parse<W> {
    /// The text being edited.
    pub closed spec fn spec_state(&self) -> Seq<char> {
        self.state@
    }

    /// The widget editing the text.
    pub closed spec fn spec_widget(&self) -> W {
        self.widget
    }

    /// Create a new `Parse` widget, with empty text.
    pub fn new(widget: W) -> (p: Self)
        ensures
            p.spec_widget() == widget,
            p.spec_state() == Seq::<char>::empty(),
    {
        Self { widget, state: String::new() }
    }

    /// The text being edited.
    pub fn state(&self) -> (s: &str)
        ensures
            s@ == self.spec_state(),
    {
        self.state.as_str()
    }

    /// Replace the text being edited; returns the text it held before.
    pub fn replace_state(&mut self, text: String) -> (old_text: String)
        ensures
            final(self).spec_state() == text@,
            old_text@ == old(self).spec_state(),
            final(self).spec_widget() == old(self).spec_widget(),
    {
        let mut t = text;
        std::mem::swap(&mut self.state, &mut t);
        t
    }
}

/// Whether the text of a `Parse` widget is replaced by the text of the new
/// data when the data changes.
///
/// `data_is_some` says whether there is a value at all; `parsed_same` is
/// `None` when the current text does not parse, and otherwise whether the
/// value it parses to is the same as the data. Without a value the text is
/// kept (so the user's input is not clobbered); text that does not parse,
/// or parses to another value, is replaced.
pub fn parse_should_replace(data_is_some: bool, parsed_same: Option<bool>) -> (b: bool)
    ensures
        b == (data_is_some && match parsed_same {
            None => true,
            Some(same) => !same,
        }),
{
    if !data_is_some {
        false
    } else {
        match parsed_same {
            None => true,
            Some(same) => !same,
        }
    }
}

/// A widget that shows its child only while a prism matches the data.
pub struct PrismWrap<U, P, W> {
    inner: W,
    prism: P,
    lifecycle_widget_added: bool,
    phantom: PhantomData<U>,
}

/// The life-cycle notifications that a `PrismWrap` tells apart.
#[derive(Debug, Clone, Copy, PartialEq, Eq, Structural)]
pub enum PrismLifeCycle {
    RouteWidgetAdded,
    WidgetAdded,
    Other,
}

/// How a `PrismWrap` passes a data update on to its child.
#[derive(Debug, Clone, Copy, PartialEq, Eq, Structural)]
pub enum PrismUpdate {
    /// Nothing reaches the child.
    Skip,
    /// The child gets the old and the new variant data.
    Update,
    /// The variant just became active: the children changed; when `update`
    /// the child also gets the new data as both old and new.
    Activated { update: bool },
    /// The variant just became inactive: the children changed and the child
    /// gets the old data as both old and new.
    Deactivated,
}

impl<U, P, W> PrismWrap<U, P, W> {
    /// The child has been told it was added.
    pub closed spec fn spec_widget_added(&self) -> bool {
        self.lifecycle_widget_added
    }

    /// The child widget.
    pub closed spec fn spec_inner(&self) -> W {
        self.inner
    }

    /// The prism that selects the child's data.
    pub closed spec fn spec_prism(&self) -> P {
        self.prism
    }

    pub fn new(inner: W, prism: P) -> (p: Self)
        ensures
            p.spec_inner() == inner,
            p.spec_prism() == prism,
            !p.spec_widget_added(),
    {
        PrismWrap { inner, prism, lifecycle_widget_added: false, phantom: PhantomData }
    }

    /// Record a life-cycle notification that reaches the active variant;
    /// returns whether the child must first be told it was added.
    pub fn lifecycle(&mut self, event: PrismLifeCycle) -> (send_added: bool)
        ensures
            send_added == (event == PrismLifeCycle::RouteWidgetAdded && !old(self).spec_widget_added()),
            final(self).spec_widget_added() == (old(self).spec_widget_added() || event
                != PrismLifeCycle::Other),
            final(self).spec_inner() == old(self).spec_inner(),
            final(self).spec_prism() == old(self).spec_prism(),
    {
        match event {
            PrismLifeCycle::RouteWidgetAdded => {
                if !self.lifecycle_widget_added {
                    self.lifecycle_widget_added = true;
                    true
                } else {
                    false
                }
            },
            PrismLifeCycle::WidgetAdded => {
                self.lifecycle_widget_added = true;
                false
            },
            PrismLifeCycle::Other => false,
        }
    }

    /// Decide how a data update reaches the child. `old_present` and
    /// `new_present` say whether the prism matched the old and the new data,
    /// `same` whether the old and the new data are the same.
    ///
    /// A variant can only become inactive after its child was told it was added.
    pub fn update_action(&self, old_present: bool, new_present: bool, same: bool) -> (a: PrismUpdate)
        requires
            old_present && !new_present ==> self.spec_widget_added(),
        ensures
            a == if new_present && old_present {
                if same {
                    PrismUpdate::Skip
                } else {
                    PrismUpdate::Update
                }
            } else if new_present {
                PrismUpdate::Activated { update: self.spec_widget_added() }
            } else if old_present {
                PrismUpdate::Deactivated
            } else {
                PrismUpdate::Skip
            },
    {
        if new_present {
            if old_present {
                if !same {
                    PrismUpdate::Update
                } else {
                    PrismUpdate::Skip
                }
            } else {
                PrismUpdate::Activated { update: self.lifecycle_widget_added }
            }
        } else if old_present {
            PrismUpdate::Deactivated
        } else {
            PrismUpdate::Skip
        }
    }
}

/// The horizontal axis: the major coordinate is the first one.
#[derive(Debug, Default, Clone, Copy, PartialEq, Eq, Structural)]
pub struct Horizontal;

/// The vertical axis: the major coordinate is the second one.
#[derive(Debug, Default, Clone, Copy, PartialEq, Eq, Structural)]
pub struct Vertical;

impl Horizontal {
    /// The axis across this one.
    pub fn cross(&self) -> (v: Vertical)
        ensures
            v == Vertical,
    {
        Vertical
    }

    /// The coordinate along this axis of a pair `(x, y)`.
    pub open spec fn major_of<N>(x: N, y: N) -> N {
        x
    }

    /// The coordinate across this axis of a pair `(x, y)`.
    pub open spec fn minor_of<N>(x: N, y: N) -> N {
        y
    }

    /// The pair `(x, y)` with the given coordinates along and across this axis.
    pub open spec fn packed<N>(major: N, minor: N) -> (N, N) {
        (major, minor)
    }

    /// The coordinate along this axis of a pair `(x, y)`.
    pub fn major<N>(&self, x: N, y: N) -> (m: N)
        ensures
            m == Horizontal::major_of(x, y),
    {
        x
    }

    /// The coordinate across this axis of a pair `(x, y)`.
    pub fn minor<N>(&self, x: N, y: N) -> (m: N)
        ensures
            m == Horizontal::minor_of(x, y),
    {
        y
    }

    /// The pair `(x, y)` with the given coordinates along and across this axis.
    pub fn pack<N>(&self, major: N, minor: N) -> (p: (N, N))
        ensures
            p == Horizontal::packed(major, minor),
    {
        (major, minor)
    }
}

impl Vertical {
    /// The axis across this one.
    pub fn cross(&self) -> (h: Horizontal)
        ensures
            h == Horizontal,
    {
        Horizontal
    }

    /// The coordinate along this axis of a pair `(x, y)`.
    pub open spec fn major_of<N>(x: N, y: N) -> N {
        y
    }

    /// The coordinate across this axis of a pair `(x, y)`.
    pub open spec fn minor_of<N>(x: N, y: N) -> N {
        x
    }

    /// The pair `(x, y)` with the given coordinates along and across this axis.
    pub open spec fn packed<N>(major: N, minor: N) -> (N, N) {
        (minor, major)
    }

    /// The coordinate along this axis of a pair `(x, y)`.
    pub fn major<N>(&self, x: N, y: N) -> (m: N)
        ensures
            m == Vertical::major_of(x, y),
    {
        y
    }

    /// The coordinate across this axis of a pair `(x, y)`.
    pub fn minor<N>(&self, x: N, y: N) -> (m: N)
        ensures
            m == Vertical::minor_of(x, y),
    {
        x
    }

    /// The pair `(x, y)` with the given coordinates along and across this axis.
    pub fn pack<N>(&self, major: N, minor: N) -> (p: (N, N))
        ensures
            p == Vertical::packed(major, minor),
    {
        (minor, major)
    }
}

/// Packing and then reading back along either axis gives back the
/// coordinates, and the minor coordinate along one axis is the major
/// coordinate along the axis across it.
pub proof fn law_axis_pack_roundtrip<N>(major: N, minor: N, x: N, y: N)
    ensures
        Horizontal::major_of(Horizontal::packed(major, minor).0, Horizontal::packed(major, minor).1) == major,
        Horizontal::minor_of(Horizontal::packed(major, minor).0, Horizontal::packed(major, minor).1) == minor,
        Vertical::major_of(Vertical::packed(major, minor).0, Vertical::packed(major, minor).1) == major,
        Vertical::minor_of(Vertical::packed(major, minor).0, Vertical::packed(major, minor).1) == minor,
        Horizontal::minor_of(x, y) == Vertical::major_of(x, y),
        Vertical::minor_of(x, y) == Horizontal::major_of(x, y),
{
}

/// A widget that runs a closure on its child before each update pass.
pub struct Updater<W, F> {
    inner: W,
    update_fn: F,
}

impl<W, F: FnMut(&mut W)> Updater<W, F> {
    /// The child widget.
    pub closed spec fn spec_inner(&self) -> W {
        self.inner
    }

    /// The closure run before each update pass.
    pub closed spec fn spec_update_fn(&self) -> F {
        self.update_fn
    }

    /// Create an updater with a child.
    pub fn new(inner: W, f: F) -> (u: Self)
        ensures
            u.spec_inner() == inner,
            u.spec_update_fn() == f,
    {
        Updater { inner, update_fn: f }
    }

    /// The child widget.
    pub fn widget(&self) -> (w: &W)
        ensures
            *w == self.spec_inner(),
    {
        &self.inner
    }
}

} // verus!
