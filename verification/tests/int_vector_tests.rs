use ue_types::int_vector::IntVector;

#[test]
fn int_vector_test_int_vector_operations() {
    let iv1 = IntVector::new(1, 2, 3);
    let iv2 = IntVector::new(4, 5, 6);

    assert_eq!(iv1.add(iv2), IntVector::new(5, 7, 9));
    assert_eq!(iv2.sub(iv1), IntVector::new(3, 3, 3));
    assert_eq!(iv1.dot(iv2), 32); // 1*4 + 2*5 + 3*6 = 32
}

#[test]
fn test_int_vector_manhattan_distance() {
    let p1 = IntVector::new(0, 0, 0);
    let p2 = IntVector::new(3, 4, 5);
    assert_eq!(p1.manhattan_distance(p2), 12);
}

#[test]
fn test_int_vector_display() {
    let iv = IntVector::new(1, 2, 3);
    let display_str = iv.to_display_string();
    assert!(display_str.contains("X=1"));
    assert!(display_str.contains("Y=2"));
    assert!(display_str.contains("Z=3"));
}

#[test]
fn test_int_vector_cross_and_scale() {
    let x = IntVector::new(1, 0, 0);
    let y = IntVector::new(0, 1, 0);
    assert_eq!(x.cross(y), IntVector::new(0, 0, 1));
    assert_eq!(y.cross(x), IntVector::new(0, 0, -1));
    assert_eq!(IntVector::new(1, -2, 3).scale(-2), IntVector::new(-2, 4, -6));
    assert_eq!(IntVector::new(3, 4, 12).size_squared(), 169);
    assert_eq!(
        IntVector::new(-1, -2, -3).to_display_string(),
        "IntVector(X=-1, Y=-2, Z=-3)"
    );
}
