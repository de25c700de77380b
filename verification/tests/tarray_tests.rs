use ue_types::tarray::TArray;

#[test]
fn test_tarray_basic_operations() {
    let mut arr = TArray::new();
    assert_eq!(arr.num(), 0);
    assert!(arr.is_empty());

    arr.add(1);
    arr.add(2);
    arr.add(3);

    assert_eq!(arr.num(), 3);
    assert_eq!(arr.get(0), Some(&1));
    assert_eq!(arr.get(1), Some(&2));
    assert_eq!(arr.get(2), Some(&3));
    assert_eq!(arr.last(), Some(&3));
}

#[test]
fn test_tarray_remove_operations() {
    let mut arr = TArray::from_vec(vec![1, 2, 3, 2, 4]);

    assert!(arr.remove(&2)); // Remove first occurrence
    assert_eq!(arr.as_slice(), &[1, 3, 2, 4]);

    assert_eq!(arr.remove_at(2), Some(2));
    assert_eq!(arr.as_slice(), &[1, 3, 4]);
}

#[test]
fn test_tarray_find_and_contains() {
    let arr = TArray::from_vec(vec!["hello", "world", "test"]);

    assert!(arr.contains(&"world"));
    assert!(!arr.contains(&"missing"));
    assert_eq!(arr.find(&"world"), 1);
    assert_eq!(arr.find(&"missing"), -1);
}

#[test]
fn test_tarray_display() {
    let arr = TArray::from_vec(vec![1, 2, 3]);
    let display_str = arr.to_display_string();
    assert_eq!(display_str, "TArray[1, 2, 3]");
}

#[test]
fn test_tarray_capacity_and_reallocation() {
    let mut arr = TArray::with_capacity(2);
    assert_eq!(arr.capacity(), 2);
    assert_eq!(arr.num(), 0);

    // Add elements up to capacity
    arr.add(1);
    arr.add(2);
    assert_eq!(arr.num(), 2);
    assert_eq!(arr.capacity(), 2);

    // Force reallocation
    arr.add(3);
    arr.add(4);

    assert_eq!(arr.num(), 4);
    assert!(arr.capacity() >= 4); // Should have grown

    // Verify all elements are still there
    assert_eq!(arr.get(0), Some(&1));
    assert_eq!(arr.get(1), Some(&2));
    assert_eq!(arr.get(2), Some(&3));
    assert_eq!(arr.get(3), Some(&4));
}

#[test]
fn test_tarray_large_operations() {
    let mut arr = TArray::new();

    // Add many items to test reallocation and performance
    for i in 0..1000 {
        arr.add(i);
    }

    assert_eq!(arr.num(), 1000);

    // Test finding items in large array
    assert_eq!(arr.find(&500), 500);
    assert_eq!(arr.find(&999), 999);
    assert_eq!(arr.find(&1000), -1); // Not found

    // Test removing from middle
    assert_eq!(arr.remove_at(500), Some(500));
    assert_eq!(arr.num(), 999);
    assert_eq!(arr.get(500), Some(&501)); // Element shifted down

    // Test contains on large array
    assert!(arr.contains(&0));
    assert!(arr.contains(&999));
    assert!(!arr.contains(&500)); // Was removed
}

#[test]
fn test_tarray_edge_cases() {
    let mut arr = TArray::new();

    // Test operations on empty array
    assert_eq!(arr.get(0), None);
    assert_eq!(arr.last(), None);
    assert_eq!(arr.remove_at(0), None);
    assert_eq!(arr.find(&42), -1);
    assert!(!arr.contains(&42));
    assert!(arr.is_empty());

    // Test with single element
    arr.add(42);
    assert!(!arr.is_empty());
    assert_eq!(arr.num(), 1);
    assert_eq!(arr.get(0), Some(&42));
    assert_eq!(arr.last(), Some(&42));
    assert!(arr.contains(&42));
    assert_eq!(arr.find(&42), 0);

    // Test removing the only element
    assert_eq!(arr.remove_at(0), Some(42));
    assert!(arr.is_empty());
    assert_eq!(arr.num(), 0);
}

#[test]
fn test_tarray_index_bounds() {
    let mut arr = TArray::from_vec(vec![1, 2, 3]);

    // Test valid indices
    assert_eq!(arr.get(0), Some(&1));
    assert_eq!(arr.get(1), Some(&2));
    assert_eq!(arr.get(2), Some(&3));

    // Test invalid indices
    assert_eq!(arr.get(3), None);
    assert_eq!(arr.get(100), None);

    // Test negative index handling in remove_at
    assert_eq!(arr.remove_at(-1), None);
    assert_eq!(arr.remove_at(100), None);

    // Array should be unchanged
    assert_eq!(arr.num(), 3);
    assert_eq!(arr.as_slice(), &[1, 2, 3]);
}

#[test]
fn test_tarray_memory_efficiency() {
    // Test that TArray doesn't waste too much memory
    let arr = TArray::with_capacity(10);
    assert_eq!(arr.capacity(), 10);
    assert_eq!(arr.num(), 0);

    // After adding one element, capacity should remain the same
    let mut arr = arr;
    arr.add(1);
    assert_eq!(arr.capacity(), 10);
    assert_eq!(arr.num(), 1);

    // Test shrinking (if supported)
    let mut large_arr = TArray::with_capacity(1000);
    large_arr.add(1);
    large_arr.add(2);

    // Empty should clear all elements
    large_arr.empty();
    assert_eq!(large_arr.num(), 0);
    assert!(large_arr.is_empty());
}

#[test]
fn test_tarray_insert_and_set_num() {
    let mut arr = TArray::from_vec(vec![1, 3]);
    arr.insert(1, 2);
    assert_eq!(arr.as_slice(), &[1, 2, 3]);

    // Out-of-range inserts leave the array alone
    arr.insert(-1, 9);
    arr.insert(100, 9);
    assert_eq!(arr.as_slice(), &[1, 2, 3]);

    arr.set_num(5);
    assert_eq!(arr.as_slice(), &[1, 2, 3, 0, 0]);
    arr.set_num(2);
    assert_eq!(arr.as_slice(), &[1, 2]);
    arr.set_num(-1);
    assert_eq!(arr.as_slice(), &[1, 2]);
}

#[test]
fn test_tarray_push_pop_append() {
    let mut a = TArray::new();
    a.push(1);
    a.push(2);
    assert_eq!(a.pop(), Some(2));
    assert_eq!(a.pop(), Some(1));
    assert_eq!(a.pop(), None);

    let mut b = TArray::from_vec(vec![1, 2]);
    let mut c = TArray::from_vec(vec![3, 4]);
    b.append(&mut c);
    assert_eq!(b.as_slice(), &[1, 2, 3, 4]);
    assert!(c.is_empty());
    assert!(b.is_valid_index(3));
    assert!(!b.is_valid_index(4));
    assert!(!b.is_valid_index(-1));
    assert_eq!(b.clone().into_vec(), vec![1, 2, 3, 4]);
}

#[test]
fn test_tarray_sort() {
    let mut arr = TArray::from_vec(vec![5, -1, 4, 4, 0, 2147483647, -2147483648]);
    arr.sort();
    assert_eq!(arr.as_slice(), &[-2147483648, -1, 0, 4, 4, 5, 2147483647]);

    let mut empty: TArray<i32> = TArray::new();
    empty.sort();
    assert!(empty.is_empty());

    let mut one = TArray::from_vec(vec![9u64]);
    one.sort();
    assert_eq!(one.as_slice(), &[9]);
}

#[test]
fn test_tarray_get_mut_and_last_mut() {
    let mut arr = TArray::from_vec(vec![1, 2, 3]);
    if let Some(v) = arr.get_mut(1) {
        *v = 20;
    }
    assert_eq!(arr.as_slice(), &[1, 20, 3]);
    assert_eq!(arr.get_mut(3), None);
    assert_eq!(arr.get_mut(-1), None);

    if let Some(v) = arr.last_mut() {
        *v = 30;
    }
    assert_eq!(arr.as_slice(), &[1, 20, 30]);

    arr.as_mut_slice()[0] = 10;
    assert_eq!(arr.as_slice(), &[10, 20, 30]);
}

#[test]
fn test_tarray_display_edge_values() {
    let empty: TArray<i32> = TArray::new();
    assert_eq!(empty.to_display_string(), "TArray[]");
    let one = TArray::from_vec(vec![-7]);
    assert_eq!(one.to_display_string(), "TArray[-7]");
    let mixed = TArray::from_vec(vec![0, -2147483648, 2147483647]);
    assert_eq!(mixed.to_display_string(), "TArray[0, -2147483648, 2147483647]");
}
