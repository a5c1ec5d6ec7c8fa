use vstd::prelude::*;
use crate::ids::WidgetId;

verus! {

/// A request to move keyboard focus.
#[derive(Clone, Copy, Debug, PartialEq, Eq, Structural)]
pub enum FocusChange {
    /// Give up focus.
    Resign,
    /// Focus the given widget.
    Focus(WidgetId),
    /// Focus the next widget of the focus chain.
    Next,
    /// Focus the previous widget of the focus chain.
    Previous,
}

/// `idx` is the first position of `id` in `chain`.
pub open spec fn is_first_index(chain: Seq<WidgetId>, id: WidgetId, idx: int) -> bool {
    &&& 0 <= idx < chain.len()
    &&& chain[idx] == id
    &&& forall|j: int| 0 <= j < idx ==> chain[j] != id
}

/// The position next to `idx` in a chain of length `len`, wrapping around.
pub open spec fn neighbour(idx: int, len: int, forward: bool) -> int {
    if forward {
        (idx + 1) % len
    } else {
        (idx + len - 1) % len
    }
}

/// The neighbour of a position, without wrap-around arithmetic.
pub proof fn lemma_neighbour(idx: int, len: int)
    requires
        0 <= idx < len,
    ensures
        neighbour(idx, len, true) == (if idx + 1 < len { idx + 1 } else { 0 }),
        neighbour(idx, len, false) == (if idx > 0 { idx - 1 } else { len - 1 }),
{
    if idx + 1 < len {
        vstd::arithmetic::div_mod::lemma_small_mod((idx + 1) as nat, len as nat);
    } else {
        vstd::arithmetic::div_mod::lemma_mod_self_0(len);
    }
    if idx > 0 {
        vstd::arithmetic::div_mod::lemma_mod_add_multiples_vanish(idx - 1, len);
        vstd::arithmetic::div_mod::lemma_small_mod((idx - 1) as nat, len as nat);
        assert(idx + len - 1 == len + (idx - 1));
    } else {
        vstd::arithmetic::div_mod::lemma_small_mod((len - 1) as nat, len as nat);
    }
}

/// The widget that focus moves to from `focus` along `chain`.
///
/// Nothing is focused: nothing is. The focused widget is in the chain: its
/// neighbour in the chain (the chain wraps around; where the widget occurs
/// several times its first occurrence counts). It is not in the chain: the
/// first widget of the chain going forward, the last going backward (none for
/// an empty chain).
pub open spec fn focus_step(chain: Seq<WidgetId>, focus: Option<WidgetId>, forward: bool) -> Option<WidgetId> {
    match focus {
        None => None,
        Some(f) => if chain.contains(f) {
            let idx = choose|idx: int| is_first_index(chain, f, idx);
            Some(chain[neighbour(idx, chain.len() as int, forward)])
        } else if chain.len() == 0 {
            None
        } else if forward {
            Some(chain[0])
        } else {
            Some(chain[chain.len() - 1])
        },
    }
}

/// The first position of `id` in `chain`.
fn position(chain: &Vec<WidgetId>, id: WidgetId) -> (r: Option<usize>)
    ensures
        match r {
            Some(idx) => is_first_index(chain@, id, idx as int),
            None => !chain@.contains(id),
        },
{
    let mut i: usize = 0;
    while i < chain.len()
        invariant
            i <= chain.len(),
            forall|j: int| 0 <= j < i ==> chain@[j] != id,
        decreases chain.len() - i,
    {
        if chain[i] == id {
            return Some(i);
        }
        i = i + 1;
    }
    None
}

/// The widget that focus moves to from `focus` along the focus chain.
pub fn widget_from_focus_chain(focus: Option<WidgetId>, chain: &Vec<WidgetId>, forward: bool) -> (r: Option<WidgetId>)
    ensures
        r == focus_step(chain@, focus, forward),
{
    match focus {
        None => None,
        Some(f) => match position(chain, f) {
            Some(idx) => {
                let len = chain.len();
                let new_idx = if forward {
                    (idx + 1) % len
                } else if idx == 0 {
                    len - 1
                } else {
                    idx - 1
                };
                proof {
                    let c = choose|c: int| is_first_index(chain@, f, c);
                    assert(c == idx);
                    lemma_neighbour(idx as int, len as int);
                    assert(new_idx == neighbour(idx as int, len as int, forward));
                }
                Some(chain[new_idx])
            },
            None => {
                if chain.len() == 0 {
                    None
                } else if forward {
                    Some(chain[0])
                } else {
                    Some(chain[chain.len() - 1])
                }
            },
        },
    }
}

/// The widget that a focus request gives focus to, given the widget focused
/// now and the focus chain.
pub fn widget_for_focus_request(focus_change: FocusChange, focus: Option<WidgetId>, chain: &Vec<WidgetId>) -> (r: Option<WidgetId>)
    ensures
        r == match focus_change {
            FocusChange::Resign => None,
            FocusChange::Focus(id) => Some(id),
            FocusChange::Next => focus_step(chain@, focus, true),
            FocusChange::Previous => focus_step(chain@, focus, false),
        },
{
    match focus_change {
        FocusChange::Resign => None,
        FocusChange::Focus(id) => Some(id),
        FocusChange::Next => widget_from_focus_chain(focus, chain, true),
        FocusChange::Previous => widget_from_focus_chain(focus, chain, false),
    }
}

/// Moving focus along the chain from a widget whose first place in the
/// chain is `i`: forward gives the widget after it, or the first one after
/// the last; backward the widget before it, or the last one before the
/// first. From a widget not in the chain, forward gives the first widget and
/// backward the last (nothing in an empty chain); with nothing focused,
/// nothing is.
pub proof fn law_focus_moves_to_neighbour(chain: Seq<WidgetId>, f: WidgetId, i: int, forward: bool)
    ensures
        focus_step(chain, None, forward) is None,
        0 <= i < chain.len() && chain[i] == f && (forall|j: int| 0 <= j < i ==> chain[j] != f) ==> {
            &&& focus_step(chain, Some(f), true) == Some(if i + 1 < chain.len() { chain[i + 1] } else { chain[0] })
            &&& focus_step(chain, Some(f), false) == Some(if i > 0 { chain[i - 1] } else { chain[chain.len() - 1] })
        },
        !chain.contains(f) ==> {
            &&& chain.len() == 0 ==> focus_step(chain, Some(f), forward) is None
            &&& chain.len() > 0 ==> focus_step(chain, Some(f), true) == Some(chain[0])
                && focus_step(chain, Some(f), false) == Some(chain[chain.len() - 1])
        },
{
    if 0 <= i < chain.len() && chain[i] == f && (forall|j: int| 0 <= j < i ==> chain[j] != f) {
        assert(is_first_index(chain, f, i));
        assert(chain.contains(f));
        let idx = choose|idx: int| is_first_index(chain, f, idx);
        assert(idx == i) by {
            if idx < i {
                assert(chain[idx] != f);
            } else if idx > i {
                assert(chain[i] != f);
            }
        }
        lemma_neighbour(i, chain.len() as int);
    }
}

/// In a focus chain without repeats, moving focus forward and then backward
/// returns it to the widget it started from, and so does moving backward and
/// then forward.
pub proof fn law_focus_next_then_previous(chain: Seq<WidgetId>, f: WidgetId)
    requires
        chain.contains(f),
        forall|a: int, b: int| 0 <= a < b < chain.len() ==> chain[a] != chain[b],
    ensures
        focus_step(chain, focus_step(chain, Some(f), true), false) == Some(f),
        focus_step(chain, focus_step(chain, Some(f), false), true) == Some(f),
{
    let len = chain.len() as int;
    let i = choose|i: int| 0 <= i < len && chain[i] == f;
    assert(is_first_index(chain, f, i));
    let idx = choose|idx: int| is_first_index(chain, f, idx);
    assert(idx == i);
    lemma_neighbour(i, len);
    let n = neighbour(i, len, true);
    assert(0 <= n < len);
    assert(is_first_index(chain, chain[n], n));
    assert(chain.contains(chain[n]));
    let idx2 = choose|idx2: int| is_first_index(chain, chain[n], idx2);
    assert(idx2 == n);
    lemma_neighbour(n, len);
    assert(neighbour(n, len, false) == i);
    let p = neighbour(i, len, false);
    assert(0 <= p < len);
    assert(is_first_index(chain, chain[p], p));
    assert(chain.contains(chain[p]));
    let idx3 = choose|idx3: int| is_first_index(chain, chain[p], idx3);
    assert(idx3 == p);
    lemma_neighbour(p, len);
    assert(neighbour(p, len, true) == i);
}

} // verus!
