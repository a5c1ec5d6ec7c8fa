use druid::ids::{Binding, Counter, DataId, WidgetId, WindowId};

#[test]
fn widget_ids_are_distinct_and_increasing() {
    let mut c = Counter::new();
    let a = WidgetId::next(&mut c);
    let b = WidgetId::next(&mut c);
    let d = WidgetId::next(&mut c);
    assert_eq!(a.to_raw(), 1);
    assert_eq!(b.to_raw(), 2);
    assert_eq!(d.to_raw(), 3);
    assert_ne!(a, b);
    assert_ne!(b, d);
}

#[test]
fn counter_hands_out_consecutive_values() {
    let mut c = Counter::new();
    assert_eq!(c.next(), 1);
    assert_eq!(c.next(), 2);
    assert_eq!(c.next(), 3);
}

#[test]
fn reserved_widget_ids_count_down_from_max() {
    assert_eq!(WidgetId::reserved(0).to_raw(), u64::MAX);
    assert_eq!(WidgetId::reserved(7).to_raw(), u64::MAX - 7);
    assert_ne!(WidgetId::reserved(1), WidgetId::reserved(2));
}

#[test]
fn window_and_data_ids_come_from_their_counter() {
    let mut windows = Counter::new();
    let w1 = WindowId::next(&mut windows);
    let w2 = WindowId::next(&mut windows);
    assert!(w1 < w2);
    assert_eq!(w2.to_raw(), 2);
    let mut data = Counter::new();
    let d = DataId::next(&mut data);
    assert_eq!(d.to_raw(), 1);
    assert_ne!(d.to_raw(), druid::ids::INVALID_DATA_ID);
}

#[test]
fn bindings_get_fresh_ids_and_keep_their_value() {
    let mut c = Counter::new();
    let a = Binding::new(5u64, &mut c);
    let b = Binding::new(String::from("x"), &mut c);
    assert_ne!(a.id(), b.id());
    assert_eq!(*a, 5);
    assert_eq!(b.as_str(), "x");
    assert_eq!(a.id(), DataId::next(&mut Counter::new()));
}

#[test]
fn counted_ids_never_repeat() {
    let mut c = Counter::new();
    let mut seen = std::collections::HashSet::new();
    for _ in 0..100 {
        assert!(!c.exhausted());
        let v = c.next();
        assert_ne!(v, 0);
        assert!(seen.insert(v));
    }
}

#[test]
fn bindings_never_get_the_invalid_id() {
    let mut c = Counter::new();
    let mut last = 0;
    for i in 0..10u32 {
        let b = Binding::new(i, &mut c);
        assert_ne!(b.id().to_raw(), druid::ids::INVALID_DATA_ID);
        assert!(b.id().to_raw() > last);
        last = b.id().to_raw();
    }
}

#[test]
fn window_ids_order_by_when_they_were_handed_out() {
    let mut windows = Counter::new();
    let first = WindowId::next(&mut windows);
    let second = WindowId::next(&mut windows);
    assert_eq!(first.partial_cmp(&second), Some(std::cmp::Ordering::Less));
    assert_eq!(second.partial_cmp(&first), Some(std::cmp::Ordering::Greater));
    assert_eq!(first.cmp(&first), std::cmp::Ordering::Equal);
    assert!(second > first);
    let mut ids = vec![second, first];
    ids.sort();
    assert_eq!(ids, vec![first, second]);
}
