use vstd::prelude::*;
use vstd::std_specs::cmp::PartialOrdSpec;
use vstd::std_specs::cmp::PartialOrdSpecImpl;

verus! {

/// A monotonically increasing source of identifiers.
///
/// A fresh counter starts at 1; every call of [`Counter::next`] hands out the
/// current value and advances by one, so values handed out are never repeated
/// and never zero.
pub struct Counter {
    value: u64,
}

impl Counter {
    #[verifier::type_invariant]
    spec fn nonzero(self) -> bool {
        self.value >= 1
    }

    /// The value the next call of `next` will hand out.
    pub closed spec fn current(&self) -> u64 {
        self.value
    }

    /// Create a new counter, whose first value is 1.
    pub fn new() -> (c: Counter)
        ensures
            c.current() == 1,
    {
        Counter { value: 1 }
    }

    /// Every value has been handed out: `next` may not be called again.
    pub fn exhausted(&self) -> (b: bool)
        ensures
            b == (self.current() == u64::MAX),
    {
        self.value == u64::MAX
    }

    /// Return the next value, and advance the counter by one.
    pub fn next(&mut self) -> (v: u64)
        requires
            old(self).current() < u64::MAX,
        ensures
            v == old(self).current(),
            v >= 1,
            final(self).current() == old(self).current() + 1,
    {
        proof {
            use_type_invariant(&*self);
        }
        let v = self.value;
        self.value = self.value + 1;
        v
    }
}

/// A unique identifier for a single widget.
///
/// The raw value is never zero.
#[derive(Clone, Copy, Debug, Hash, PartialEq, Eq, Structural)]
pub struct WidgetId(u64);

impl WidgetId {
    /// The raw value of this identifier.
    pub closed spec fn raw(self) -> u64 {
        self.0
    }

    /// Allocate a new `WidgetId` from `counter`: its raw value is the counter's
    /// current value, and the counter advances.
    pub fn next(counter: &mut Counter) -> (id: WidgetId)
        requires
            old(counter).current() < u64::MAX,
        ensures
            id.raw() == old(counter).current(),
            id.raw() != 0,
            final(counter).current() == old(counter).current() + 1,
    {
        WidgetId(counter.next())
    }

    /// The reserved id for `raw`.
    pub closed spec fn reserved_id(raw: u16) -> WidgetId {
        WidgetId((u64::MAX - raw) as u64)
    }

    /// Create a reserved `WidgetId`; its raw value is `u64::MAX - raw`.
    pub fn reserved(raw: u16) -> (id: WidgetId)
        ensures
            id == WidgetId::reserved_id(raw),
            id.raw() == u64::MAX - raw,
            id.raw() != 0,
    {
        WidgetId(u64::MAX - raw as u64)
    }

    /// The raw value of this identifier.
    pub fn to_raw(self) -> (r: u64)
        ensures
            r == self.raw(),
    {
        self.0
    }
}

/// A unique identifier for a window. Window ids are ordered by their raw
/// values, so a window opened later has the larger id.
#[derive(Clone, Copy, Debug, PartialEq, Eq, Hash, Ord, Structural)]
pub struct WindowId(u64);

impl PartialOrd for WindowId {
    fn partial_cmp(&self, other: &WindowId) -> (r: Option<std::cmp::Ordering>) {
        if self.0 < other.0 {
            Some(std::cmp::Ordering::Less)
        } else if self.0 == other.0 {
            Some(std::cmp::Ordering::Equal)
        } else {
            Some(std::cmp::Ordering::Greater)
        }
    }
}

impl PartialOrdSpecImpl for WindowId {
    open spec fn obeys_partial_cmp_spec() -> bool {
        true
    }

    open spec fn partial_cmp_spec(&self, other: &WindowId) -> Option<std::cmp::Ordering> {
        if self.raw() < other.raw() {
            Some(std::cmp::Ordering::Less)
        } else if self.raw() == other.raw() {
            Some(std::cmp::Ordering::Equal)
        } else {
            Some(std::cmp::Ordering::Greater)
        }
    }
}

impl WindowId {
    /// The raw value of this identifier.
    pub closed spec fn raw(self) -> u64 {
        self.0
    }

    /// Allocate a new window id from `counter`.
    pub fn next(counter: &mut Counter) -> (id: WindowId)
        requires
            old(counter).current() < u64::MAX,
        ensures
            id.raw() == old(counter).current(),
            final(counter).current() == old(counter).current() + 1,
    {
        WindowId(counter.next())
    }

    /// The raw value of this identifier.
    pub fn to_raw(self) -> (r: u64)
        ensures
            r == self.raw(),
    {
        self.0
    }
}

/// The identity of one attribute in the attribute graph.
#[derive(Debug, Clone, Copy, PartialEq, Eq, Hash, Structural)]
pub struct DataId(u64);

/// The id that no binding ever receives from a counter.
pub const INVALID_DATA_ID: u64 = 0;

/// The timer token that no timer ever carries.
pub const INVALID_TIMER: u64 = 0;

impl DataId {
    /// The raw value of this identifier.
    pub closed spec fn raw(self) -> u64 {
        self.0
    }

    /// Allocate a new data id from `counter`.
    pub fn next(counter: &mut Counter) -> (id: DataId)
        requires
            old(counter).current() < u64::MAX,
        ensures
            id.raw() == old(counter).current(),
            id.raw() != INVALID_DATA_ID,
            final(counter).current() == old(counter).current() + 1,
    {
        DataId(counter.next())
    }

    /// The raw value of this identifier.
    pub fn to_raw(self) -> (r: u64)
        ensures
            r == self.raw(),
    {
        self.0
    }
}

/// A value together with the identity under which it is stored.
#[derive(Clone, Debug)]
pub struct Binding<T> {
    id: DataId,
    value: T,
}

impl<T> Binding<T> {
    /// The identity of this binding.
    pub closed spec fn spec_id(&self) -> DataId {
        self.id
    }

    /// The value held by this binding.
    pub closed spec fn spec_value(&self) -> T {
        self.value
    }

    /// Create a binding for `value` with a fresh id from `counter`.
    pub fn new(value: T, counter: &mut Counter) -> (b: Binding<T>)
        requires
            old(counter).current() < u64::MAX,
        ensures
            b.spec_id().raw() == old(counter).current(),
            b.spec_id().raw() != INVALID_DATA_ID,
            b.spec_value() == value,
            final(counter).current() == old(counter).current() + 1,
    {
        Binding { id: DataId::next(counter), value }
    }

    /// The identity of this binding.
    pub fn id(&self) -> (id: DataId)
        ensures
            id == self.spec_id(),
    {
        self.id
    }

    /// The value held by this binding.
    pub fn value(&self) -> (v: &T)
        ensures
            *v == self.spec_value(),
    {
        &self.value
    }

    /// Replace the value held by this binding; its identity stays.
    pub fn set_value(&mut self, value: T)
        ensures
            final(self).spec_id() == old(self).spec_id(),
            final(self).spec_value() == value,
    {
        self.value = value;
    }
}

impl<T> std::ops::Deref for Binding<T> {
    type Target = T;

    fn deref(&self) -> (v: &T)
        ensures
            *v == self.spec_value(),
    {
        &self.value
    }
}

/// Identifiers handed out by one counter never repeat: a value handed out
/// at some point is below the counter's current value from then on (the
/// counter only advances), so no later call hands it out again. Counted ids
/// are never zero.
pub proof fn law_counter_values_never_repeat(issued: u64, after_issue: Counter, later: Counter)
    requires
        after_issue.current() == issued + 1,
        after_issue.current() <= later.current(),
    ensures
        later.current() != issued,
        later.current() != 0,
{
}

/// The identifiers that successive calls of `next` hand out: `states` are the
/// counter's states, `issued[i]` is what the call that goes from `states[i]`
/// to `states[i + 1]` returned (as [`Counter::next`] states it). They rise
/// strictly, so any two calls hand out different values, a later call a
/// larger one, and none is zero. Widget, window and data ids are these values.
pub proof fn law_successive_calls_give_increasing_ids(states: Seq<Counter>, issued: Seq<u64>)
    requires
        states.len() == issued.len() + 1,
        states[0].current() >= 1,
        forall|i: int|
            0 <= i < issued.len() ==> #[trigger] issued[i] == states[i].current() && states[i + 1].current()
                == states[i].current() + 1,
    ensures
        forall|i: int, j: int| 0 <= i < j < issued.len() ==> issued[i] < issued[j],
        forall|i: int| 0 <= i < issued.len() ==> issued[i] != 0,
{
    assert forall|i: int| 0 <= i < states.len() implies #[trigger] states[i].current() == states[0].current() + i by {
        lemma_counter_state_after(states, issued, i);
    }
    assert forall|i: int, j: int| 0 <= i < j < issued.len() implies issued[i] < issued[j] by {
        assert(states[i].current() == states[0].current() + i);
        assert(states[j].current() == states[0].current() + j);
    }
    assert forall|i: int| 0 <= i < issued.len() implies issued[i] != 0 by {
        assert(states[i].current() == states[0].current() + i);
    }
}

/// After `i` calls the counter has advanced by `i`.
proof fn lemma_counter_state_after(states: Seq<Counter>, issued: Seq<u64>, i: int)
    requires
        states.len() == issued.len() + 1,
        forall|k: int|
            0 <= k < issued.len() ==> #[trigger] issued[k] == states[k].current() && states[k + 1].current()
                == states[k].current() + 1,
        0 <= i < states.len(),
    ensures
        states[i].current() == states[0].current() + i,
    decreases i,
{
    if i > 0 {
        lemma_counter_state_after(states, issued, i - 1);
        assert(issued[i - 1] == states[i - 1].current());
    }
}

/// Window ids compare by their raw values, so that, as successive calls of
/// `next` hand out rising raw values, a window id handed out later compares
/// greater than one handed out earlier.
pub proof fn law_window_ids_ordered_by_raw(a: WindowId, b: WindowId)
    ensures
        a.raw() < b.raw() <==> PartialOrdSpec::partial_cmp_spec(&a, &b) == Some(std::cmp::Ordering::Less),
        a.raw() == b.raw() <==> PartialOrdSpec::partial_cmp_spec(&a, &b) == Some(std::cmp::Ordering::Equal),
        a.raw() > b.raw() <==> PartialOrdSpec::partial_cmp_spec(&a, &b) == Some(std::cmp::Ordering::Greater),
{
}

/// Reserved widget ids are never zero and are distinct for distinct raw values.
pub proof fn law_reserved_ids_distinct(a: u16, b: u16)
    ensures
        WidgetId::reserved_id(a).raw() != 0,
        a != b ==> WidgetId::reserved_id(a) != WidgetId::reserved_id(b),
{
}

} // verus!
