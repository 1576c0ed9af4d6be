use tracer_core::vector::Vector3;

#[test]
fn test_vector_creation() {
    let vec = Vector3::new(1.23, 4.56, 7.89);

    assert_eq!(1.23, vec.x);
    assert_eq!(4.56, vec.y);
    assert_eq!(7.89, vec.z);
}

#[test]
fn test_vector_xyz() {
    let vec = Vector3::new(1.0, 2.0, 3.0);

    assert_eq!(1.0, vec.x());
    assert_eq!(2.0, vec.y());
    assert_eq!(3.0, vec.z());
}

#[test]
fn test_vector_negate() {
    let vec = Vector3::new(1.0, 2.0, 3.0);
    let vec = vec.map(|a: f64| -a);

    assert_eq!(-1.0, vec.x());
    assert_eq!(-2.0, vec.y());
    assert_eq!(-3.0, vec.z());
}

#[test]
fn test_vector_index() {
    let vec = Vector3::new(53.32, 432.32, 23.12);

    assert_eq!(53.32, vec.get(0));
    assert_eq!(432.32, vec.get(1));
    assert_eq!(23.12, vec.get(2))
}

#[test]
fn test_vector_index_mutable() {
    let mut vec = Vector3::new(1.0, 2.0, 3.0);
    vec.store(0, 4.0);
    vec.store(1, 5.0);
    vec.store(2, 6.0);

    assert_eq!(4.0, vec.x());
    assert_eq!(5.0, vec.y());
    assert_eq!(6.0, vec.z());
}

#[test]
fn test_vector_addition() {
    let vec1 = Vector3::new(1.0, 1.0, 1.0);
    let vec2 = Vector3::new(1.0, 1.0, 1.0);
    let vec3 = vec1.combine(&vec2, |a: f64, b: f64| a + b);

    assert_eq!(Vector3::new(2.0, 2.0, 2.0), vec3);
}

#[test]
fn test_vector_subtraction() {
    let vec1 = Vector3::new(4.0, 4.0, 4.0);
    let vec2 = Vector3::new(1.0, 1.0, 1.0);
    let vec3 = vec1.combine(&vec2, |a: f64, b: f64| a - b);

    assert_eq!(Vector3::new(3.0, 3.0, 3.0), vec3);
}

#[test]
fn test_vector_multiplication() {
    let vec1 = Vector3::new(4.0, 4.0, 4.0);
    let vec2 = Vector3::new(2.0, 2.0, 2.0);
    let vec3 = vec1.combine(&vec2, |a: f64, b: f64| a * b);

    assert_eq!(Vector3::new(8.0, 8.0, 8.0), vec3);
}

#[test]
fn test_vector_division() {
    let vec1 = Vector3::new(4.0, 4.0, 4.0);
    let vec2 = Vector3::new(2.0, 2.0, 2.0);
    let vec3 = vec1.combine(&vec2, |a: f64, b: f64| a / b);

    assert_eq!(Vector3::new(2.0, 2.0, 2.0), vec3);
}

#[test]
fn test_vector_dot() {
    let vec1 = Vector3::new(2.4, 3.5, 3.5);
    let vec2 = Vector3::new(5.3, 3.6, 3.6);
    let dot = vec1.dot_with(&vec2, |a: f64, b: f64| a * b, |a: f64, b: f64| a + b);

    assert_eq!(37.92, dot);
}

#[test]
fn test_vector_cross() {
    let vec1 = Vector3::new(1.0, 2.0, 3.0);
    let vec2 = Vector3::new(4.0, 5.0, 6.0);
    let cross = vec1.cross_with(&vec2, |a: f64, b: f64| a * b, |a: f64, b: f64| a - b);

    assert_eq!(Vector3::new(-3.0, 6.0, -3.0), cross);
}

#[test]
fn test_cross_anti_commutes() {
    let mul = |a: f64, b: f64| a * b;
    let sub = |a: f64, b: f64| a - b;
    let vec1 = Vector3::new(1.0, 2.0, 3.0);
    let vec2 = Vector3::new(4.0, 5.0, 6.0);

    let forward = vec1.cross_with(&vec2, mul, sub);
    let backward = vec2.cross_with(&vec1, mul, sub).map(|a: f64| -a);
    assert_eq!(forward, backward);
}

#[test]
fn test_dot_is_symmetric() {
    let mul = |a: f64, b: f64| a * b;
    let add = |a: f64, b: f64| a + b;
    let vec1 = Vector3::new(2.4, 3.5, 3.5);
    let vec2 = Vector3::new(5.3, 3.6, 3.6);

    assert_eq!(vec1.dot_with(&vec2, mul, add), vec2.dot_with(&vec1, mul, add));
}

#[test]
fn test_get_checked_in_range_matches_accessors() {
    let vec = Vector3::new(7.5, -2.5, 0.25);

    assert_eq!(Some(vec.x()), vec.get_checked(0));
    assert_eq!(Some(vec.y()), vec.get_checked(1));
    assert_eq!(Some(vec.z()), vec.get_checked(2));
}

#[test]
fn test_get_checked_out_of_range_is_none() {
    let vec = Vector3::new(1.0, 2.0, 3.0);

    assert_eq!(None, vec.get_checked(3));
    assert_eq!(None, vec.get_checked(usize::MAX));
}

#[test]
fn test_store_checked_out_of_range_leaves_vector_unchanged() {
    let mut vec = Vector3::new(1.0, 2.0, 3.0);

    assert!(!vec.store_checked(3, 9.0));
    assert!(!vec.store_checked(usize::MAX, 9.0));
    assert_eq!(Vector3::new(1.0, 2.0, 3.0), vec);

    assert!(vec.store_checked(1, 9.0));
    assert_eq!(Vector3::new(1.0, 9.0, 3.0), vec);
}

#[test]
fn test_addition_commutes() {
    let add = |a: f64, b: f64| a + b;
    let v1 = Vector3::new(1.5, -2.25, 3.75);
    let v2 = Vector3::new(0.5, 4.0, -1.25);

    assert_eq!(v1.combine(&v2, add), v2.combine(&v1, add));
}

#[test]
fn test_addition_associates() {
    let add = |a: f64, b: f64| a + b;
    let v1 = Vector3::new(1.5, -2.25, 3.75);
    let v2 = Vector3::new(0.5, 4.0, -1.25);
    let v3 = Vector3::new(-8.0, 0.125, 2.5);

    let left = v1.combine(&v2, add).combine(&v3, add);
    let right = v1.combine(&v2.combine(&v3, add), add);
    assert_eq!(left, right);
}

#[test]
fn test_addition_zero_identity() {
    let add = |a: f64, b: f64| a + b;
    let v = Vector3::new(1.5, -2.25, 3.75);
    let zero = Vector3::new(0.0, 0.0, 0.0);

    assert_eq!(v, v.combine(&zero, add));
}

#[test]
fn test_subtraction_self_is_zero() {
    let sub = |a: f64, b: f64| a - b;
    let v = Vector3::new(1.5, -2.25, 3.75);

    assert_eq!(Vector3::new(0.0, 0.0, 0.0), v.combine(&v, sub));
}
