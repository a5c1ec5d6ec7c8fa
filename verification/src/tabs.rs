use vstd::prelude::*;
use crate::event::{EventKind, LifeCycleKind};
use std::collections::HashMap;

verus! {

broadcast use vstd::std_specs::hash::group_hash_axioms;

/// Nanoseconds.
pub type Nanos = u64;

/// The default length of a slide transition: 250 milliseconds.
pub const DEFAULT_SLIDE_NANOS: Nanos = 250_000_000;

/// Information about a tab that drives the presentation of its label.
pub struct TabInfo<L> {
    /// Name of the tab
    pub name: L,
    /// Should the user be able to close the tab?
    pub can_close: bool,
}

impl<L> TabInfo<L> {
    /// Create a new TabInfo
    pub fn new(name: L, can_close: bool) -> (t: Self)
        ensures
            t.name == name,
            t.can_close == can_close,
    {
        TabInfo { name, can_close }
    }
}

/// Determines whether the tabs will have a transition animation when a new tab is selected.
#[derive(Copy, Clone, Debug, PartialEq, Eq, Structural)]
pub enum TabsTransition {
    /// Change tabs instantly with no animation
    Instant,
    /// Slide tabs across in the appropriate direction. The argument is the duration in nanoseconds
    Slide(Nanos),
}

impl Default for TabsTransition {
    fn default() -> (t: Self)
        ensures
            t == TabsTransition::Slide(DEFAULT_SLIDE_NANOS),
    {
        TabsTransition::Slide(DEFAULT_SLIDE_NANOS)
    }
}

impl TabsTransition {
    /// The transition to run when the selection moves from tab `old` to tab `new`.
    pub fn tab_changed(self, old: usize, new: usize) -> (r: Option<TabsTransitionState>)
        ensures
            match self {
                TabsTransition::Instant => r is None,
                TabsTransition::Slide(dur) => r == Some(
                    TabsTransitionState {
                        previous_idx: old,
                        current_time: 0,
                        duration: dur,
                        increasing: old < new,
                    },
                ),
            },
    {
        match self {
            TabsTransition::Instant => None,
            TabsTransition::Slide(dur) => Some(TabsTransitionState::new(old, dur, old < new)),
        }
    }
}

/// Determines where the tab bar should be placed relative to the cross axis
#[derive(Debug, Copy, Clone, PartialEq, Eq, Structural)]
pub enum TabsEdge {
    /// For horizontal tabs, top. For vertical tabs, left.
    Leading,
    /// For horizontal tabs, bottom. For vertical tabs, right.
    Trailing,
}

impl Default for TabsEdge {
    fn default() -> (e: Self)
        ensures
            e == TabsEdge::Leading,
    {
        TabsEdge::Leading
    }
}

/// The progress of a running slide transition between two tabs.
#[derive(Debug, Copy, Clone, PartialEq, Eq, Structural)]
pub struct TabsTransitionState {
    /// The tab that was selected before.
    pub previous_idx: usize,
    /// The time elapsed since the transition started.
    pub current_time: Nanos,
    /// The length of the transition.
    pub duration: Nanos,
    /// Whether the newly selected tab comes after the previous one.
    pub increasing: bool,
}

impl TabsTransitionState {
    pub fn new(previous_idx: usize, duration: Nanos, increasing: bool) -> (s: Self)
        ensures
            s == (TabsTransitionState { previous_idx, current_time: 0, duration, increasing }),
    {
        TabsTransitionState { previous_idx, current_time: 0, duration, increasing }
    }

    /// The transition is still running.
    pub fn live(&self) -> (b: bool)
        ensures
            b == (self.current_time < self.duration),
    {
        self.current_time < self.duration
    }
}

/// What the tabs body asks of its context after an animation frame.
#[derive(Debug, Copy, Clone, PartialEq, Eq, Structural)]
pub struct FrameRequests {
    pub request_anim_frame: bool,
    pub request_paint: bool,
}

/// Advance a running transition by the length of one animation frame.
///
/// The elapsed time grows by `interval`; a transition that is still live asks
/// for another frame, one that has ended is dropped. Any running transition
/// asks for a repaint; without one nothing happens.
pub fn advance_transition(state: &mut Option<TabsTransitionState>, interval: Nanos) -> (r: FrameRequests)
    requires
        *old(state) matches Some(s) ==> s.current_time + interval <= u64::MAX,
    ensures
        match *old(state) {
            None => *final(state) is None && r == (FrameRequests {
                request_anim_frame: false,
                request_paint: false,
            }),
            Some(s) => {
                let t = s.current_time + interval;
                &&& r.request_paint
                &&& r.request_anim_frame == (t < s.duration)
                &&& (t < s.duration ==> *final(state) == Some(
                    TabsTransitionState { current_time: t as u64, ..s },
                ))
                &&& (t >= s.duration ==> *final(state) is None)
            },
        },
{
    match state {
        None => FrameRequests { request_anim_frame: false, request_paint: false },
        Some(s) => {
            let mut t = *s;
            t.current_time = t.current_time + interval;
            if t.live() {
                *state = Some(t);
                FrameRequests { request_anim_frame: true, request_paint: true }
            } else {
                *state = None;
                FrameRequests { request_anim_frame: false, request_paint: true }
            }
        },
    }
}

/// Whether a tab that is not shown still receives this event.
pub fn hidden_should_receive_event(evt: &EventKind) -> (b: bool)
    ensures
        b == !evt.is_user_input(),
{
    match evt {
        EventKind::WindowConnected
        | EventKind::WindowSize
        | EventKind::Timer
        | EventKind::AnimFrame
        | EventKind::Command
        | EventKind::Internal => true,
        EventKind::MouseDown
        | EventKind::MouseUp
        | EventKind::MouseMove
        | EventKind::Wheel
        | EventKind::KeyDown
        | EventKind::KeyUp
        | EventKind::Paste
        | EventKind::Zoom => false,
    }
}

/// Whether a tab that is not shown still receives this life-cycle notification.
pub fn hidden_should_receive_lifecycle(lc: &LifeCycleKind) -> (b: bool)
    ensures
        b == (*lc == LifeCycleKind::WidgetAdded || *lc == LifeCycleKind::Internal),
{
    match lc {
        LifeCycleKind::WidgetAdded | LifeCycleKind::Internal => true,
        LifeCycleKind::Size
        | LifeCycleKind::HotChanged
        | LifeCycleKind::FocusChanged
        | LifeCycleKind::DisabledChanged => false,
    }
}

/// The scope policy of a tabs widget: the tabs policy and the initially selected tab.
pub struct TabsScopePolicy<TP> {
    pub tabs_from_data: TP,
    pub selected: usize,
}

impl<TP> TabsScopePolicy<TP> {
    pub fn new(tabs_from_data: TP, selected: usize) -> (p: Self)
        ensures
            p.tabs_from_data == tabs_from_data,
            p.selected == selected,
    {
        Self { tabs_from_data, selected }
    }
}

/// The tab under the position `pos` on the tab bar's major axis.
///
/// `far_edges[i]` is the far edge of tab `i` along the major axis; tabs are
/// laid out one after the other, so these edges do not decrease. The result is
/// the first tab whose far edge reaches `pos`, or `None` when `pos` is beyond
/// the last tab.
pub fn find_tab_index(far_edges: &Vec<i64>, pos: i64) -> (r: Option<usize>)
    requires
        forall|i: int, j: int| 0 <= i <= j < far_edges.len() ==> far_edges[i] <= far_edges[j],
    ensures
        match r {
            Some(idx) => {
                &&& idx < far_edges.len()
                &&& far_edges[idx as int] >= pos
                &&& forall|j: int| 0 <= j < idx ==> far_edges[j] < pos
            },
            None => forall|j: int| 0 <= j < far_edges.len() ==> far_edges[j] < pos,
        },
{
    let mut lo: usize = 0;
    let mut hi: usize = far_edges.len();
    while lo < hi
        invariant
            0 <= lo <= hi <= far_edges.len(),
            forall|j: int| 0 <= j < lo ==> far_edges[j] < pos,
            forall|j: int| hi <= j < far_edges.len() ==> far_edges[j] >= pos,
            forall|i: int, j: int| 0 <= i <= j < far_edges.len() ==> far_edges[i] <= far_edges[j],
        decreases hi - lo,
    {
        let mid = lo + (hi - lo) / 2;
        if far_edges[mid] < pos {
            lo = mid + 1;
        } else {
            hi = mid;
        }
    }
    if lo < far_edges.len() {
        Some(lo)
    } else {
        None
    }
}

/// A mouse move over the tab bar: the hot tab becomes the tab under the
/// mouse (`under_mouse`) while the bar is hot, and none otherwise. Returns
/// whether it changed, in which case the bar is repainted.
pub fn update_hot_tab(hot_tab: &mut Option<usize>, bar_is_hot: bool, under_mouse: Option<usize>) -> (changed: bool)
    ensures
        *final(hot_tab) == if bar_is_hot { under_mouse } else { None },
        changed == (*final(hot_tab) != *old(hot_tab)),
{
    let new_hot = if bar_is_hot {
        under_mouse
    } else {
        None
    };
    let changed = match (new_hot, *hot_tab) {
        (Some(a), Some(b)) => a != b,
        (None, None) => false,
        _ => true,
    };
    *hot_tab = new_hot;
    changed
}

/// The keys of a list of keyed entries, in order.
pub open spec fn entry_keys<C>(entries: Seq<(usize, C)>) -> Seq<usize> {
    entries.map_values(|e: (usize, C)| e.0)
}

/// `j` is the position of the last entry of `keys` that equals `k`.
pub open spec fn is_last_index(keys: Seq<usize>, k: usize, j: int) -> bool {
    &&& 0 <= j < keys.len()
    &&& keys[j] == k
    &&& forall|m: int| j < m < keys.len() ==> keys[m] != k
}

/// Tab `i` of `tabs` takes over an existing entry: its key is among the old
/// keys, and no earlier tab has the same key.
pub open spec fn takes_existing(old_keys: Seq<usize>, tabs: Seq<usize>, i: int) -> bool {
    &&& old_keys.contains(tabs[i])
    &&& forall|p: int| 0 <= p < i ==> tabs[p] != tabs[i]
}

/// Rebuild `contents` so that it holds one entry per key of `tabs`, in the
/// order of `tabs`.
///
/// An entry whose key was present before is kept (where a key occurred several
/// times, its last entry is the one kept, and only the first tab with that key
/// gets it); every other entry is made by `f`. Returns the positions, in
/// increasing order, of the entries that were kept.
pub fn ensure_for_tabs<C, F: Fn(usize) -> C>(contents: &mut Vec<(usize, C)>, tabs: &Vec<usize>, f: F) -> (r: Vec<usize>)
    requires
        forall|k: usize| f.requires((k,)),
    ensures
        final(contents)@.len() == tabs@.len(),
        forall|i: int| 0 <= i < tabs@.len() ==> #[trigger] final(contents)@[i].0 == tabs@[i],
        forall|i: int, j: int|
            0 <= i < tabs@.len() && takes_existing(entry_keys(old(contents)@), tabs@, i)
                && is_last_index(entry_keys(old(contents)@), tabs@[i], j)
                ==> #[trigger] final(contents)@[i].1 == #[trigger] old(contents)@[j].1,
        forall|i: int|
            0 <= i < tabs@.len() && !takes_existing(entry_keys(old(contents)@), tabs@, i)
                ==> f.ensures((tabs@[i],), #[trigger] final(contents)@[i].1),
        forall|a: int, b: int| 0 <= a < b < r@.len() ==> r@[a] < r@[b],
        forall|a: int|
            0 <= a < r@.len() ==> #[trigger] r@[a] < tabs@.len() && takes_existing(
                entry_keys(old(contents)@),
                tabs@,
                r@[a] as int,
            ),
        forall|i: int|
            0 <= i < tabs@.len() && takes_existing(entry_keys(old(contents)@), tabs@, i)
                ==> r@.contains(i as usize),
{
    let ghost orig = contents@;
    let ghost okeys = entry_keys(orig);
    let mut old_entries: Vec<(usize, C)> = Vec::new();
    std::mem::swap(contents, &mut old_entries);
    let n = old_entries.len();
    let mut existing_by_key: HashMap<usize, C> = HashMap::new();
    let mut m: usize = 0;
    while old_entries.len() > 0
        invariant
            n == orig.len(),
            okeys == entry_keys(orig),
            contents@.len() == 0,
            m + old_entries@.len() == n,
            old_entries@ == orig.subrange(m as int, n as int),
            forall|k: usize|
                #[trigger] existing_by_key@.contains_key(k) <==> exists|j: int| 0 <= j < m && okeys[j] == k,
            forall|j: int|
                0 <= j < m && (forall|q: int| j < q < m ==> okeys[q] != okeys[j]) ==> existing_by_key@[
                    #[trigger] okeys[j]] == orig[j].1,
        decreases old_entries@.len(),
    {
        let (k, c) = old_entries.remove(0);
        proof {
            assert(orig[m as int].0 == k);
            assert(okeys[m as int] == k);
        }
        existing_by_key.insert(k, c);
        m = m + 1;
        proof {
            assert forall|kk: usize| #[trigger] existing_by_key@.contains_key(kk) <==> exists|j: int|
                0 <= j < m && okeys[j] == kk by {
                if existing_by_key@.contains_key(kk) && kk != k {
                    let j = choose|j: int| 0 <= j < m - 1 && okeys[j] == kk;
                    assert(0 <= j < m && okeys[j] == kk);
                }
                if kk == k {
                    assert(okeys[m - 1] == kk);
                }
            }
        }
    }
    proof {
        assert forall|k: usize| #[trigger] existing_by_key@.contains_key(k) <==> okeys.contains(k) by {
            if existing_by_key@.contains_key(k) {
                let j = choose|j: int| 0 <= j < n && okeys[j] == k;
                assert(okeys[j] == k);
            }
            if okeys.contains(k) {
                let j = choose|j: int| 0 <= j < okeys.len() && okeys[j] == k;
                assert(0 <= j < n && okeys[j] == k);
            }
        }
    }
    let mut existing_idx: Vec<usize> = Vec::new();
    let mut i: usize = 0;
    while i < tabs.len()
        invariant
            forall|k: usize| f.requires((k,)),
            n == orig.len(),
            okeys == entry_keys(orig),
            i <= tabs@.len(),
            contents@.len() == i,
            forall|p: int| 0 <= p < i ==> #[trigger] contents@[p].0 == tabs@[p],
            forall|p: int, j: int|
                0 <= p < i && takes_existing(okeys, tabs@, p) && is_last_index(okeys, tabs@[p], j)
                    ==> #[trigger] contents@[p].1 == #[trigger] orig[j].1,
            forall|p: int|
                0 <= p < i && !takes_existing(okeys, tabs@, p) ==> f.ensures(
                    (tabs@[p],),
                    #[trigger] contents@[p].1,
                ),
            forall|k: usize|
                #[trigger] existing_by_key@.contains_key(k) <==> (okeys.contains(k) && forall|p: int|
                    0 <= p < i ==> tabs@[p] != k),
            forall|j: int|
                0 <= j < n && is_last_index(okeys, okeys[j], j) && existing_by_key@.contains_key(okeys[j])
                    ==> existing_by_key@[#[trigger] okeys[j]] == orig[j].1,
            forall|a: int, b: int| 0 <= a < b < existing_idx@.len() ==> existing_idx@[a] < existing_idx@[b],
            forall|a: int|
                0 <= a < existing_idx@.len() ==> #[trigger] existing_idx@[a] < i && takes_existing(
                    okeys,
                    tabs@,
                    existing_idx@[a] as int,
                ),
            forall|p: int| 0 <= p < i && takes_existing(okeys, tabs@, p) ==> existing_idx@.contains(p as usize),
        decreases tabs@.len() - i,
    {
        let k = tabs[i];
        let ghost prev_map = existing_by_key@;
        let ghost prev_idx = existing_idx@;
        let content: C;
        match existing_by_key.remove(&k) {
            Some(c) => {
                proof {
                    assert(prev_map.contains_key(k));
                    assert(takes_existing(okeys, tabs@, i as int));
                    assert forall|j: int| is_last_index(okeys, tabs@[i as int], j) implies c == orig[j].1 by {
                        assert(okeys[j] == k);
                    }
                }
                content = c;
                existing_idx.push(i);
                assert(existing_idx@[existing_idx@.len() - 1] == i);
            },
            None => {
                proof {
                    assert(!prev_map.contains_key(k));
                    assert(!takes_existing(okeys, tabs@, i as int));
                }
                content = f(k);
            },
        }
        contents.push((k, content));
        proof {
            assert forall|q: int| 0 <= q <= i && takes_existing(okeys, tabs@, q) implies existing_idx@.contains(
                q as usize,
            ) by {
                if q < i {
                    assert(prev_idx.contains(q as usize));
                    let w = choose|w: int| 0 <= w < prev_idx.len() && prev_idx[w] == q as usize;
                    assert(existing_idx@[w] == q as usize);
                } else {
                    assert(existing_idx@[existing_idx@.len() - 1] == i);
                }
            }
        }
        i = i + 1;
    }
    existing_idx
}

/// Re-running the rebuild with the keys it already holds keeps every entry:
/// when the old keys are exactly `tabs` and no key repeats, every tab takes
/// over the entry at its own position.
pub proof fn law_ensure_for_tabs_keeps_unchanged_tabs<C>(old_entries: Seq<(usize, C)>, tabs: Seq<usize>)
    requires
        entry_keys(old_entries) == tabs,
        forall|a: int, b: int| 0 <= a < b < tabs.len() ==> tabs[a] != tabs[b],
    ensures
        forall|i: int|
            0 <= i < tabs.len() ==> takes_existing(entry_keys(old_entries), tabs, i)
                && is_last_index(entry_keys(old_entries), tabs[i], i),
{
    assert forall|i: int| 0 <= i < tabs.len() implies takes_existing(entry_keys(old_entries), tabs, i)
        && is_last_index(entry_keys(old_entries), tabs[i], i) by {
        assert(entry_keys(old_entries)[i] == tabs[i]);
    }
}

} // verus!
