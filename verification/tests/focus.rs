use druid::focus::{widget_for_focus_request, widget_from_focus_chain, FocusChange};
use druid::ids::{Counter, WidgetId};

fn ids(n: usize) -> Vec<WidgetId> {
    let mut c = Counter::new();
    (0..n).map(|_| WidgetId::next(&mut c)).collect()
}

#[test]
fn focus_moves_along_the_chain_and_wraps() {
    let chain = ids(3);
    assert_eq!(widget_from_focus_chain(Some(chain[0]), &chain, true), Some(chain[1]));
    assert_eq!(widget_from_focus_chain(Some(chain[2]), &chain, true), Some(chain[0]));
    assert_eq!(widget_from_focus_chain(Some(chain[0]), &chain, false), Some(chain[2]));
    assert_eq!(widget_from_focus_chain(Some(chain[1]), &chain, false), Some(chain[0]));
    assert_eq!(widget_from_focus_chain(None, &chain, true), None);
}

#[test]
fn focus_outside_the_chain_goes_to_an_end() {
    let chain = ids(3);
    let other = WidgetId::reserved(1);
    assert_eq!(widget_from_focus_chain(Some(other), &chain, true), Some(chain[0]));
    assert_eq!(widget_from_focus_chain(Some(other), &chain, false), Some(chain[2]));
    assert_eq!(widget_from_focus_chain(Some(other), &vec![], false), None);
}

#[test]
fn next_then_previous_returns_to_start() {
    let chain = ids(5);
    for &f in &chain {
        let n = widget_from_focus_chain(Some(f), &chain, true);
        assert_eq!(widget_from_focus_chain(n, &chain, false), Some(f));
    }
}

#[test]
fn focus_requests() {
    let chain = ids(2);
    assert_eq!(widget_for_focus_request(FocusChange::Resign, Some(chain[0]), &chain), None);
    assert_eq!(widget_for_focus_request(FocusChange::Focus(chain[1]), None, &chain), Some(chain[1]));
    assert_eq!(widget_for_focus_request(FocusChange::Next, Some(chain[1]), &chain), Some(chain[0]));
    assert_eq!(widget_for_focus_request(FocusChange::Previous, Some(chain[1]), &chain), Some(chain[0]));
}
