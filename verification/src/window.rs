use vstd::prelude::*;
use std::collections::HashMap;
use crate::focus::{focus_step, widget_for_focus_request, FocusChange};
use crate::ids::WidgetId;

verus! {

broadcast use vstd::std_specs::hash::group_hash_axioms;

/// The widget that a timer belongs to, by the timer's token; `None` when no
/// widget asked for this timer, in which case the event is not handled.
pub fn route_timer(timers: &HashMap<u64, WidgetId>, token: u64) -> (r: Option<WidgetId>)
    ensures
        r == if timers@.contains_key(token) {
            Some(timers@[token])
        } else {
            None
        },
{
    match timers.get(&token) {
        Some(w) => Some(*w),
        None => None,
    }
}

/// Record that `widget` asked for the timer with this token.
pub fn record_timer(timers: &mut HashMap<u64, WidgetId>, token: u64, widget: WidgetId)
    ensures
        final(timers)@ == old(timers)@.insert(token, widget),
{
    timers.insert(token, widget);
}

/// The timer with this token fired and was routed: forget it, so that its
/// token can be used again.
pub fn finish_timer(timers: &mut HashMap<u64, WidgetId>, token: u64)
    ensures
        final(timers)@ == old(timers)@.remove(token),
{
    timers.remove(&token);
}

/// The focus after a request, in the focus chain `chain`.
pub open spec fn requested_focus(req: FocusChange, focus: Option<WidgetId>, chain: Seq<WidgetId>) -> Option<WidgetId> {
    match req {
        FocusChange::Resign => None,
        FocusChange::Focus(id) => Some(id),
        FocusChange::Next => focus_step(chain, focus, true),
        FocusChange::Previous => focus_step(chain, focus, false),
    }
}

/// Apply a focus request: the focus becomes the widget the request names.
/// Returns the old and the new focus exactly when the focus changed (the
/// widgets are then told of the change); otherwise nothing changes.
pub fn apply_focus_request(focus: &mut Option<WidgetId>, req: FocusChange, chain: &Vec<WidgetId>) -> (changed: Option<
    (Option<WidgetId>, Option<WidgetId>),
>)
    ensures
        ({
            let new = requested_focus(req, *old(focus), chain@);
            &&& *final(focus) == new
            &&& changed == if new != *old(focus) {
                Some((*old(focus), new))
            } else {
                None
            }
        }),
{
    let old = *focus;
    let new = widget_for_focus_request(req, old, chain);
    let same = match (old, new) {
        (Some(a), Some(b)) => a == b,
        (None, None) => true,
        _ => false,
    };
    if same {
        None
    } else {
        *focus = new;
        Some((old, new))
    }
}

/// `widget` has a text-input session among `sessions` (pairs of a session
/// token and the widget that owns it).
pub open spec fn has_session(sessions: Seq<(u64, WidgetId)>, widget: Option<WidgetId>) -> bool {
    widget matches Some(w) && exists|i: int| 0 <= i < sessions.len() && sessions[i].1 == w
}

/// `i` is the first session owned by `w`.
pub open spec fn is_first_session(sessions: Seq<(u64, WidgetId)>, w: WidgetId, i: int) -> bool {
    &&& 0 <= i < sessions.len()
    &&& sessions[i].1 == w
    &&& forall|j: int| 0 <= j < i ==> sessions[j].1 != w
}

/// The token of the first text-input session owned by `widget`, if any.
pub open spec fn session_of(sessions: Seq<(u64, WidgetId)>, widget: Option<WidgetId>) -> Option<u64> {
    match widget {
        Some(w) => if has_session(sessions, widget) {
            Some(sessions[choose|i: int| is_first_session(sessions, w, i)].0)
        } else {
            None
        },
        None => None,
    }
}

/// What the platform is told of text input after the focus moved from `old`
/// to `new`: the new focus's text field when it has one, that no field is
/// active when only the old focus had one, and nothing otherwise.
pub open spec fn ime_change(sessions: Seq<(u64, WidgetId)>, old: Option<WidgetId>, new: Option<WidgetId>) -> Option<
    Option<u64>,
> {
    if session_of(sessions, new) is Some {
        Some(session_of(sessions, new))
    } else if has_session(sessions, old) {
        Some(None)
    } else {
        None
    }
}

/// Whether `widget` has a text-input session among `sessions` (pairs of a
/// session token and the widget that owns it).
pub fn has_text_session(sessions: &Vec<(u64, WidgetId)>, widget: Option<WidgetId>) -> (b: bool)
    ensures
        b == has_session(sessions@, widget),
{
    match widget {
        None => false,
        Some(w) => {
            let mut i: usize = 0;
            while i < sessions.len()
                invariant
                    widget == Some(w),
                    i <= sessions@.len(),
                    forall|j: int| 0 <= j < i ==> sessions@[j].1 != w,
                decreases sessions@.len() - i,
            {
                if sessions[i].1 == w {
                    proof {
                        assert(0 <= i < sessions@.len() && sessions@[i as int].1 == w);
                    }
                    return true;
                }
                i = i + 1;
            }
            false
        },
    }
}

/// The token of the first text-input session owned by `widget`, if any.
pub fn text_session_of(sessions: &Vec<(u64, WidgetId)>, widget: Option<WidgetId>) -> (r: Option<u64>)
    ensures
        r == session_of(sessions@, widget),
        match r {
            Some(t) => widget matches Some(w) && exists|i: int|
                0 <= i < sessions@.len() && sessions@[i] == (t, w) && forall|j: int|
                    0 <= j < i ==> sessions@[j].1 != w,
            None => !(widget matches Some(w) && exists|i: int|
                0 <= i < sessions@.len() && sessions@[i].1 == w),
        },
{
    match widget {
        None => None,
        Some(w) => {
            let mut i: usize = 0;
            while i < sessions.len()
                invariant
                    widget == Some(w),
                    i <= sessions@.len(),
                    forall|j: int| 0 <= j < i ==> sessions@[j].1 != w,
                decreases sessions@.len() - i,
            {
                if sessions[i].1 == w {
                    let t = sessions[i].0;
                    proof {
                        assert(sessions@[i as int] == (t, w));
                        assert(0 <= i < sessions@.len() && sessions@[i as int] == (t, w) && forall|j: int|
                            0 <= j < i ==> sessions@[j].1 != w);
                        assert(is_first_session(sessions@, w, i as int));
                        let k = choose|k: int| is_first_session(sessions@, w, k);
                        assert(k == i as int) by {
                            if k < i as int {
                                assert(sessions@[k].1 != w);
                            } else if k > i as int {
                                assert(sessions@[i as int].1 != w);
                            }
                        }
                    }
                    return Some(t);
                }
                i = i + 1;
            }
            None
        },
    }
}

/// A focus request gives up focus, focuses the named widget, or moves along
/// the focus chain forward for "next" and backward for "previous".
pub proof fn law_focus_requests(focus: Option<WidgetId>, chain: Seq<WidgetId>, id: WidgetId)
    ensures
        requested_focus(FocusChange::Resign, focus, chain) is None,
        requested_focus(FocusChange::Focus(id), focus, chain) == Some(id),
        requested_focus(FocusChange::Next, focus, chain) == focus_step(chain, focus, true),
        requested_focus(FocusChange::Previous, focus, chain) == focus_step(chain, focus, false),
{
}

/// The text-input session of a widget is the token of the first pair it
/// owns; a widget that owns none, or no widget, has none. After the focus
/// moved, the platform is told of the new focus's session when it has one;
/// when it has none but the old focus had one, that no field is active; and
/// nothing otherwise.
pub proof fn law_text_input_follows_focus(sessions: Seq<(u64, WidgetId)>, old: Option<WidgetId>, new: Option<WidgetId>, w: WidgetId, i: int)
    ensures
        0 <= i < sessions.len() && sessions[i].1 == w && (forall|j: int| 0 <= j < i ==> sessions[j].1 != w)
            ==> session_of(sessions, Some(w)) == Some(sessions[i].0),
        (forall|j: int| 0 <= j < sessions.len() ==> sessions[j].1 != w) ==> session_of(sessions, Some(w)) is None,
        session_of(sessions, None) is None,
        session_of(sessions, new) is Some ==> ime_change(sessions, old, new) == Some(session_of(sessions, new)),
        session_of(sessions, new) is None && (old matches Some(o) && exists|j: int|
            0 <= j < sessions.len() && sessions[j].1 == o) ==> ime_change(sessions, old, new) == Some(None::<u64>),
        session_of(sessions, new) is None && !(old matches Some(o) && exists|j: int|
            0 <= j < sessions.len() && sessions[j].1 == o) ==> ime_change(sessions, old, new) is None,
{
    if 0 <= i < sessions.len() && sessions[i].1 == w && (forall|j: int| 0 <= j < i ==> sessions[j].1 != w) {
        assert(is_first_session(sessions, w, i));
        assert(has_session(sessions, Some(w)));
        let k = choose|k: int| is_first_session(sessions, w, k);
        assert(k == i) by {
            if k < i {
                assert(sessions[k].1 != w);
            } else if k > i {
                assert(sessions[i].1 != w);
            }
        }
    }
}

/// What the platform is told of text input after the focus changed: the new
/// focus's text field when it has one, that no field is active when only
/// the old focus had one, and nothing otherwise.
pub fn ime_focus_change(old_was_ime: bool, field: Option<u64>) -> (r: Option<Option<u64>>)
    ensures
        r == if field is Some {
            Some(field)
        } else if old_was_ime {
            Some(None)
        } else {
            None
        },
{
    if field.is_some() {
        Some(field)
    } else if old_was_ime {
        Some(None)
    } else {
        None
    }
}

/// After the root has handled an event: a timer that was routed is
/// forgotten (its token may be used again); then a focus request, if any,
/// is applied, and when it moved the focus the platform is to be told of the
/// text field that is now active (`ime`). Returns the old and the new focus
/// when the focus moved.
pub fn after_event(
    timers: &mut HashMap<u64, WidgetId>,
    routed_timer: Option<u64>,
    focus: &mut Option<WidgetId>,
    request: Option<FocusChange>,
    chain: &Vec<WidgetId>,
    sessions: &Vec<(u64, WidgetId)>,
    ime: &mut Option<Option<u64>>,
) -> (changed: Option<(Option<WidgetId>, Option<WidgetId>)>)
    ensures
        final(timers)@ == match routed_timer {
            Some(t) => old(timers)@.remove(t),
            None => old(timers)@,
        },
        match request {
            None => *final(focus) == *old(focus) && changed is None && *final(ime) == *old(ime),
            Some(req) => {
                let new = requested_focus(req, *old(focus), chain@);
                &&& *final(focus) == new
                &&& if new != *old(focus) {
                    &&& changed == Some((*old(focus), new))
                    &&& *final(ime) == ime_change(sessions@, *old(focus), new)
                } else {
                    &&& changed is None
                    &&& *final(ime) == *old(ime)
                }
            },
        },
{
    match routed_timer {
        Some(t) => finish_timer(timers, t),
        None => {},
    }
    match request {
        None => None,
        Some(req) => {
            let changed = apply_focus_request(focus, req, chain);
            match changed {
                Some((old, new)) => {
                    let old_was_ime = has_text_session(sessions, old);
                    let field = text_session_of(sessions, new);
                    *ime = ime_focus_change(old_was_ime, field);
                },
                None => {},
            }
            changed
        },
    }
}

} // verus!
