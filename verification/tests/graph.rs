use druid::graph::{
    should_recurse, AttributeNode, AttributeStore, RegistrationCtx, UpdateCursor, Value, ValueKind, ValueType,
};
use druid::ids::{Binding, Counter};
use std::collections::HashSet;

#[test]
fn child_data_reaches_parent() {
    let mut parent = AttributeNode::new();
    parent.insert_data(1);
    let mut child = AttributeNode::new();
    child.insert_data(2);
    parent.add_child(child);
    assert!(parent.contains_data(1));
    assert!(parent.contains_data(2));
    assert!(!parent.contains_data(3));
    let changes: HashSet<u64> = [2].into_iter().collect();
    assert!(should_recurse(&parent, &changes));
    let changes: HashSet<u64> = [3, 4].into_iter().collect();
    assert!(!should_recurse(&parent, &changes));
}

#[test]
fn store_gives_back_what_was_written() {
    let mut ids = Counter::new();
    let a = Binding::new(String::from("x"), &mut ids);
    let b = Binding::new(7u64, &mut ids);
    let mut store = AttributeStore::new();
    store.insert(&a);
    store.insert(&b);
    assert!(!store.changed(a.id()));
    store.set(&a, String::from("z"));
    assert!(store.changed(a.id()));
    assert!(!store.changed(b.id()));
    assert_eq!(store.get_value(&a).unwrap(), "z");
    assert_eq!(store.get_value(&b).unwrap(), 7);
    assert!(store.holds_kind(&b));
}

#[test]
fn reading_with_the_wrong_type_is_an_error() {
    let mut ids = Counter::new();
    let a = Binding::new(true, &mut ids);
    let mut store = AttributeStore::new();
    store.insert(&a);
    // A binding of another type under the same id.
    let mut other_ids = Counter::new();
    let wrong = Binding::new(5i64, &mut other_ids);
    assert_eq!(wrong.id(), a.id());
    assert!(!store.holds_kind(&wrong));
    let err = store.get_value(&wrong).unwrap_err();
    assert_eq!(err.expected, ValueKind::I64);
    assert!(matches!(err.found, Value::Bool(true)));
}

#[test]
fn values_round_trip() {
    assert!(matches!('q'.to_value(), Value::Char('q')));
    assert_eq!(char::try_from_value(&Value::Char('q')).unwrap(), 'q');
    assert!(u64::try_from_value(&Value::I64(-1)).is_err());
    assert!(Value::U64(1).is_same_type(&Value::U64(9)));
    assert!(!Value::U64(1).is_same_type(&Value::I64(1)));
}

#[test]
fn registration_builds_tree_and_cursor_walks_it() {
    let mut ids = Counter::new();
    let a = Binding::new(10u64, &mut ids);
    let b = Binding::new(20u64, &mut ids);
    let mut ctx = RegistrationCtx::new();
    ctx.register(&a);
    ctx.start_child();
    let mut a_view = Binding::new(0u64, &mut Counter::new());
    assert_eq!(a_view.id(), a.id());
    ctx.bind(&mut a_view);
    assert_eq!(*a_view.value(), 10);
    ctx.start_child();
    ctx.register(&b);
    ctx.end_child();
    ctx.end_child();
    assert_eq!(ctx.store().get_value(&b).unwrap(), 20);
    let (mut store, root) = ctx.finish();
    assert!(root.contains_data(a.id().to_raw()));
    assert!(root.contains_data(b.id().to_raw()));
    store.set(&b, 21);
    let mut cursor = UpdateCursor::new(&root);
    assert!(cursor.should_recurse(&store));
    assert_eq!(cursor.tree_depth(), 0);
    cursor.start_child();
    assert_eq!(cursor.tree_depth(), 1);
    assert!(cursor.should_recurse(&store));
    let mut a_seen = Binding::new(10u64, &mut Counter::new());
    cursor.update(&store, &mut a_seen);
    assert_eq!(*a_seen.value(), 10);
    cursor.start_child();
    assert!(cursor.current().contains_data(b.id().to_raw()));
    assert!(!cursor.current().contains_data(a.id().to_raw()));
    let mut b_seen = Binding::new(0u64, &mut ids);
    let mut fresh = Counter::new();
    let _ = Binding::new(0u64, &mut fresh);
    let mut b_view = Binding::new(0u64, &mut fresh);
    assert_eq!(b_view.id(), b.id());
    cursor.update(&store, &mut b_view);
    assert_eq!(*b_view.value(), 21);
    b_seen.set_value(1);
    assert_eq!(*b_seen, 1);
    cursor.end_child();
    cursor.end_child();
    assert_eq!(cursor.tree_depth(), 0);
}
