use ue_types::tset::TSet;

#[test]
fn test_tset_basic_operations() {
    let mut set = TSet::new();
    assert_eq!(set.num(), 0);
    assert!(set.is_empty());

    assert!(set.add(1));
    assert!(set.add(2));
    assert!(!set.add(1)); // Already exists

    assert_eq!(set.num(), 2);
    assert!(set.contains(&1));
    assert!(set.contains(&2));
    assert!(!set.contains(&3));

    assert!(set.remove(&1));
    assert!(!set.remove(&3)); // Doesn't exist
    assert_eq!(set.num(), 1);
}

#[test]
fn test_tset_clear_and_len() {
    let mut set = TSet::with_capacity(4);
    set.insert(10u64);
    set.insert(20u64);
    assert_eq!(set.len(), 2);
    set.empty();
    assert!(set.is_empty());
    set.insert(30u64);
    set.clear();
    assert_eq!(set.len(), 0);
}

#[test]
fn test_tset_hash_set_round_trip() {
    let mut set = TSet::new();
    set.add(5u32);
    let inner = set.into_hash_set();
    assert!(inner.contains(&5));
    let set2 = TSet::from_hash_set(inner);
    assert!(set2.contains(&5));
}
