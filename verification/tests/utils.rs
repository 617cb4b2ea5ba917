use falling_blocks::utils::Vec2;

#[test]
fn test_point_addition_i32() {
    let p1 = Vec2::new(1i32, 2i32);
    let p2 = Vec2::new(3i32, 4i32);
    let expected = Vec2::new(4i32, 6i32);
    assert_eq!(p1 + p2, expected);
}

#[test]
fn test_point_addition_f64() {
    let p1 = Vec2::new(1.0f64, 2.0f64);
    let p2 = Vec2::new(3.0f64, 4.0f64);
    let expected = Vec2::new(4.0f64, 6.0f64);
    assert_eq!(p1 + p2, expected);
}

#[test]
fn test_point_multiplication_i32() {
    let p = Vec2::new(1i32, 2i32);
    let expected = Vec2::new(2i32, 4i32);
    assert_eq!(p * 2i32, expected);
}

#[test]
fn test_point_multiplication_f64() {
    let p = Vec2::new(1.0f64, 2.0f64);
    let expected = Vec2::new(2.0f64, 4.0f64);
    assert_eq!(p * 2.0f64, expected);
}

#[test]
fn test_point_new_fields() {
    let p = Vec2::new(7u16, 9u16);
    assert_eq!(p.x, 7);
    assert_eq!(p.y, 9);
}
