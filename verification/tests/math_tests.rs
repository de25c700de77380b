use ue_types::int_vector::IntVector;
use ue_types::int_vector2::IntVector2;

#[test]
fn math_test_int_vector2_creation() {
    let iv = IntVector2::new(5, -3);
    assert_eq!(iv.x, 5);
    assert_eq!(iv.y, -3);
}

#[test]
fn math_test_int_vector_operations() {
    let iv1 = IntVector::new(1, 2, 3);
    let iv2 = IntVector::new(4, 5, 6);

    assert_eq!(iv1.add(iv2), IntVector::new(5, 7, 9));
    assert_eq!(iv2.sub(iv1), IntVector::new(3, 3, 3));
    assert_eq!(iv1.dot(iv2), 32); // 1*4 + 2*5 + 3*6 = 32
}
