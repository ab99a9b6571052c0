use my_service_bus_tcp_client::contracts::QueueIndexRange;
use my_service_bus_tcp_client::interval_set::IntervalSet;

fn range(from_id: i64, to_id: i64) -> QueueIndexRange {
    QueueIndexRange { from_id, to_id }
}

fn set_of(ids: &[i64]) -> IntervalSet {
    let mut set = IntervalSet::new();
    for id in ids {
        set.enqueue(*id);
    }
    set
}

#[test]
fn new_set_is_empty() {
    let set = IntervalSet::new();
    assert!(set.is_empty());
    assert_eq!(set.len(), 0);
    assert_eq!(set.get_snapshot(), Vec::<QueueIndexRange>::new());
    assert!(!set.has(0));
}

#[test]
fn snapshot_of_inserted_ids_is_compressed() {
    let set = set_of(&[1, 2, 3, 7, 8, 10]);
    assert_eq!(set.get_snapshot(), vec![range(1, 3), range(7, 8), range(10, 10)]);
    assert_eq!(set.len(), 6);
    assert!(!set.is_empty());
}

#[test]
fn restored_snapshot_takes_more_ids() {
    let snapshot = set_of(&[1, 2, 3, 7, 8, 10]).get_snapshot();
    let mut set = IntervalSet::restore(snapshot).expect("a snapshot is taken back in");
    assert_eq!(set.get_snapshot(), vec![range(1, 3), range(7, 8), range(10, 10)]);
    set.enqueue(4);
    set.enqueue(9);
    assert_eq!(set.get_snapshot(), vec![range(1, 4), range(7, 10)]);
    assert_eq!(set.len(), 8);
    assert!(!set.has(5));
    assert!(!set.has(6));
}

#[test]
fn restored_snapshot_takes_the_ids_between() {
    let snapshot = set_of(&[1, 2, 3, 7, 8, 10]).get_snapshot();
    let mut set = IntervalSet::restore(snapshot).expect("a snapshot is taken back in");
    for id in 4..=9 {
        set.enqueue(id);
    }
    assert_eq!(set.get_snapshot(), vec![range(1, 10)]);
    assert_eq!(set.len(), 10);
}

#[test]
fn order_of_insertion_does_not_matter() {
    let ascending = set_of(&[1, 2, 3, 7, 8, 10]);
    let mixed = set_of(&[10, 3, 7, 1, 8, 2]);
    assert_eq!(ascending.get_snapshot(), mixed.get_snapshot());
}

#[test]
fn inserting_twice_changes_nothing() {
    let set = set_of(&[5, 5, 6, 5, 6]);
    assert_eq!(set.get_snapshot(), vec![range(5, 6)]);
    assert_eq!(set.len(), 2);
}

#[test]
fn id_between_two_ranges_joins_them() {
    let mut set = set_of(&[1, 3]);
    assert_eq!(set.get_snapshot(), vec![range(1, 1), range(3, 3)]);
    set.enqueue(2);
    assert_eq!(set.get_snapshot(), vec![range(1, 3)]);
}

#[test]
fn id_before_a_range_extends_it_downwards() {
    let mut set = set_of(&[5, 6]);
    set.enqueue(4);
    assert_eq!(set.get_snapshot(), vec![range(4, 6)]);
    set.enqueue(1);
    assert_eq!(set.get_snapshot(), vec![range(1, 1), range(4, 6)]);
}

#[test]
fn ids_at_the_limits_are_kept() {
    let set = set_of(&[i64::MAX, i64::MIN, i64::MAX - 1, i64::MIN + 1, 0]);
    assert_eq!(
        set.get_snapshot(),
        vec![range(i64::MIN, i64::MIN + 1), range(0, 0), range(i64::MAX - 1, i64::MAX)]
    );
    assert_eq!(set.len(), 5);
    assert!(set.has(i64::MAX));
    assert!(set.has(i64::MIN));
    assert!(!set.has(1));
}

#[test]
fn whole_range_is_counted_exactly() {
    let set = IntervalSet::restore(vec![range(i64::MIN, i64::MAX)]).expect("one range");
    assert_eq!(set.len(), 1u128 << 64);
}

#[test]
fn negative_ids_are_kept() {
    let set = set_of(&[-3, -1, -2, 0]);
    assert_eq!(set.get_snapshot(), vec![range(-3, 0)]);
}

#[test]
fn restore_refuses_ranges_that_overlap_or_do_not_ascend() {
    assert!(IntervalSet::restore(vec![range(3, 1)]).is_none());
    assert!(IntervalSet::restore(vec![range(1, 3), range(2, 5)]).is_none());
    assert!(IntervalSet::restore(vec![range(1, 3), range(3, 5)]).is_none());
    assert!(IntervalSet::restore(vec![range(7, 8), range(1, 3)]).is_none());
    assert!(IntervalSet::restore(vec![range(1, i64::MAX), range(5, 6)]).is_none());
    assert!(IntervalSet::restore(vec![range(1, 3), range(5, 5), range(4, 4)]).is_none());
    assert!(IntervalSet::restore(vec![range(1, 3), range(5, 5)]).is_some());
    assert!(IntervalSet::restore(Vec::new()).is_some());
}

#[test]
fn restore_joins_ranges_that_touch() {
    let set = IntervalSet::restore(vec![range(1, 3), range(4, 5)]).expect("disjoint ranges");
    assert_eq!(set.get_snapshot(), vec![range(1, 5)]);
    assert_eq!(set.len(), 5);

    let set = IntervalSet::restore(vec![range(1, 9), range(10, 10)]).expect("disjoint ranges");
    assert_eq!(set.get_snapshot(), vec![range(1, 10)]);

    let set = IntervalSet::restore(vec![
        range(-2, -1),
        range(0, 0),
        range(1, 1),
        range(5, 6),
        range(7, 7),
        range(9, 9),
        range(i64::MAX - 1, i64::MAX - 1),
        range(i64::MAX, i64::MAX),
    ])
    .expect("disjoint ranges");
    assert_eq!(
        set.get_snapshot(),
        vec![range(-2, 1), range(5, 7), range(9, 9), range(i64::MAX - 1, i64::MAX)]
    );
    assert_eq!(set.len(), 10);
    assert!(set.has(0));
    assert!(!set.has(8));
}

#[test]
fn has_tells_members_from_others() {
    let set = set_of(&[1, 2, 3, 7, 8, 10]);
    for id in [1, 2, 3, 7, 8, 10] {
        assert!(set.has(id));
    }
    for id in [0, 4, 5, 6, 9, 11] {
        assert!(!set.has(id));
    }
}
