use complex::decimal::{integer_text, natural_text};
use complex::{Complex, Scalar};

#[test]
fn test_display() {
    let lo = Complex::<i32>::new(3, 3);
    let la = Complex::<i32>::new(3, 3);

    println!("ADD: {}", (lo + la).to_string());
    println!("MULT: {}", (lo * la).to_string());
    println!(
        "DOT Product: ({}).({}) = {}",
        lo.to_string(),
        la.to_string(),
        lo.dot_product(la).text()
    );
    println!("Conjugate: {}", lo.conjugate().to_string());

    assert_eq!((lo + la).to_string(), "6+6i");
    assert_eq!((lo * la).to_string(), "18i");
    assert_eq!(lo.to_string(), "3+3i");
    assert_eq!(lo.dot_product(la).text(), "0");
    assert_eq!(lo.conjugate().to_string(), "3-3i");
}

#[test]
fn only_imaginary_part_is_written_with_i() {
    assert_eq!(Complex::<i32>::new(5, 0).to_string(), "5i");
    assert_eq!(Complex::<i32>::new(-5, 0).to_string(), "-5i");
}

#[test]
fn only_real_part_is_written_alone() {
    assert_eq!(Complex::<i32>::new(0, 5).to_string(), "5");
    assert_eq!(Complex::<i32>::new(0, -5).to_string(), "-5");
}

#[test]
fn negative_imaginary_part_brings_its_sign() {
    assert_eq!(Complex::<i32>::new(-2, 3).to_string(), "3-2i");
    assert_eq!(Complex::<i32>::new(-2, -3).to_string(), "-3-2i");
}

#[test]
fn positive_imaginary_part_is_joined_by_plus() {
    assert_eq!(Complex::<i32>::new(5, 3).to_string(), "3+5i");
    assert_eq!(Complex::<i32>::new(5, -3).to_string(), "-3+5i");
}

#[test]
fn zero_is_written_with_both_parts() {
    assert_eq!(Complex::<i64>::zero().to_string(), "0+0i");
}

#[test]
fn widest_parts_are_written_in_full() {
    let c = Complex::<i128>::new(i128::MIN, i128::MAX);
    assert_eq!(
        c.to_string(),
        "170141183460469231731687303715884105727-170141183460469231731687303715884105728i"
    );
}

#[test]
fn natural_text_has_no_leading_zeros() {
    assert_eq!(natural_text(0), "0");
    assert_eq!(natural_text(9), "9");
    assert_eq!(natural_text(10), "10");
    assert_eq!(natural_text(1234567890), "1234567890");
    assert_eq!(natural_text(u128::MAX), "340282366920938463463374607431768211455");
}

#[test]
fn integer_text_agrees_with_the_standard_rendering() {
    let samples: [i128; 11] = [
        0, 1, -1, 9, -9, 10, -10, 99, 100, -1_000_000_007, 987_654_321_012_345_678,
    ];
    for v in samples {
        assert_eq!(integer_text(v), format!("{}", v));
    }
    assert_eq!(integer_text(i128::MAX), format!("{}", i128::MAX));
    assert_eq!(integer_text(i128::MIN), format!("{}", i128::MIN));
}

#[test]
fn scalar_text_of_every_width() {
    assert_eq!(i8::MIN.text(), "-128");
    assert_eq!(i16::MAX.text(), "32767");
    assert_eq!(i32::MIN.text(), "-2147483648");
    assert_eq!(i64::MAX.text(), "9223372036854775807");
    assert_eq!((-42i128).text(), "-42");
    assert_eq!(42isize.text(), "42");
}
