use ue_types::int_vector2::IntVector2;

#[test]
fn int_vector2_test_int_vector2_creation() {
    let iv = IntVector2::new(5, -3);
    assert_eq!(iv.x, 5);
    assert_eq!(iv.y, -3);
}

#[test]
fn test_int_vector2_operations() {
    let iv1 = IntVector2::new(3, 4);
    let iv2 = IntVector2::new(1, 2);

    assert_eq!(iv1.add(iv2), IntVector2::new(4, 6));
    assert_eq!(iv1.sub(iv2), IntVector2::new(2, 2));
    assert_eq!(iv1.dot(iv2), 11); // 3*1 + 4*2 = 11
}

#[test]
fn test_int_vector2_manhattan_distance() {
    let p1 = IntVector2::new(0, 0);
    let p2 = IntVector2::new(3, 4);
    assert_eq!(p1.manhattan_distance(p2), 7);
}

#[test]
fn test_int_vector2_display() {
    let iv = IntVector2::new(5, -3);
    let display_str = iv.to_display_string();
    assert!(display_str.contains("X=5"));
    assert!(display_str.contains("Y=-3"));
}

#[test]
fn test_int_vector2_scale_and_size() {
    assert_eq!(IntVector2::new(2, -3).scale(4), IntVector2::new(8, -12));
    assert_eq!(IntVector2::new(3, 4).size_squared(), 25);
    assert_eq!(
        IntVector2::new(5, -3).to_display_string(),
        "IntVector2(X=5, Y=-3)"
    );
}
