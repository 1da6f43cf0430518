use complex::Complex;
use std::collections::HashSet;

#[test]
fn equality_goes_by_both_parts() {
    assert_eq!(Complex::<i32>::new(1, 2), Complex::<i32>::new(1, 2));
    assert_ne!(Complex::<i32>::new(1, 2), Complex::<i32>::new(2, 1));
    assert_ne!(Complex::<i32>::new(1, 2), Complex::<i32>::new(1, 3));
}

#[test]
fn order_compares_the_imaginary_part_first() {
    assert!(Complex::<i32>::new(1, 9) < Complex::<i32>::new(2, 0));
    assert!(Complex::<i32>::new(2, 0) > Complex::<i32>::new(1, 9));
    assert!(Complex::<i32>::new(1, 3) < Complex::<i32>::new(1, 4));
    assert!(Complex::<i32>::new(1, 3) <= Complex::<i32>::new(1, 3));
}

#[test]
fn equal_values_hash_alike() {
    let mut seen = HashSet::new();
    assert!(seen.insert(Complex::<i64>::new(1, 2)));
    assert!(!seen.insert(Complex::<i64>::new(1, 2)));
    assert!(seen.insert(Complex::<i64>::new(2, 1)));
    assert_eq!(seen.len(), 2);
}

#[test]
fn values_are_copied_freely() {
    let a = Complex::<i16>::new(4, 5);
    let b = a;
    let c = a.clone();
    assert_eq!(a, b);
    assert_eq!(a, c);
}

#[test]
fn debug_names_both_parts() {
    let shown = format!("{:?}", Complex::<i8>::new(1, 2));
    assert_eq!(shown, "Complex { imaginary: 1, real: 2 }");
}

#[test]
fn parts_of_any_type_can_be_held_and_compared() {
    let a = Complex::<f64>::new(3.0, 3.0);
    let b = Complex::<f64>::new(3.0, 3.0);
    assert_eq!(a, b);
    assert!(Complex::<f32>::new(-3.0, 3.0) < Complex::<f32>::new(3.0, 3.0));
}

#[test]
fn order_is_partial_where_the_parts_are() {
    let a = Complex::<f64>::new(f64::NAN, 1.0);
    let b = Complex::<f64>::new(0.0, 1.0);
    assert_eq!(a.partial_cmp(&b), None);
    let c = Complex::<f64>::new(0.0, f64::NAN);
    assert_eq!(b.partial_cmp(&c), None);
    let d = Complex::<f64>::new(1.0, f64::NAN);
    assert_eq!(b.partial_cmp(&d), Some(std::cmp::Ordering::Less));
    assert_eq!(b.partial_cmp(&b), Some(std::cmp::Ordering::Equal));
}
