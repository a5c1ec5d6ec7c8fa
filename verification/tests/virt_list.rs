use druid::virt_list::VirtListInner;

#[test]
fn child_count_follows_viewport_and_data() {
    let mut list: VirtListInner<u32> = VirtListInner::new();
    assert!(list.set_visible_count(3));
    assert!(!list.set_visible_count(3));
    assert!(list.update_child_count(10, || 7));
    assert_eq!(list.visible_data_range(10), (0, 3));
    assert!(!list.update_child_count(10, || 8));
    assert!(list.update_child_count(2, || 9));
    assert_eq!(list.visible_data_range(2), (0, 2));
    assert!(list.update_child_count(5, || 11));
    assert_eq!(*list.child(0), 7);
    assert_eq!(*list.child(2), 11);
}

#[test]
fn visible_range_is_cut_at_the_data() {
    let mut list: VirtListInner<u8> = VirtListInner::new();
    list.set_visible_count(4);
    list.update_child_count(100, || 0);
    assert!(list.set_data_offset(98));
    assert!(!list.set_data_offset(98));
    assert_eq!(list.visible_data_range(100), (98, 100));
    assert_eq!(list.visible_data_range(50), (50, 50));
}

#[test]
fn children_are_reused_round_robin() {
    let mut list: VirtListInner<u8> = VirtListInner::new();
    list.set_visible_count(3);
    list.update_child_count(10, || 1);
    assert_eq!(list.child_slot(0), 0);
    assert_eq!(list.child_slot(4), 1);
    assert_eq!(list.child_slot(5), 2);
    assert_eq!(list.child_slot(6), 0);
}
