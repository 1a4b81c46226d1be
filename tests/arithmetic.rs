use rust_basics::arithmetic::{add, calculate_percentage, double};

#[test]
fn add_small_numbers() {
    assert_eq!(add(5, 3), 8);
    assert_eq!(add(-5, 3), -2);
    assert_eq!(add(i32::MAX, 0), i32::MAX);
}

#[test]
fn double_numbers() {
    assert_eq!(double(21), 42);
    assert_eq!(double(-21), -42);
}

#[test]
fn percentage_of_half() {
    assert_eq!(calculate_percentage(50, 100), Ok(50));
}

#[test]
fn percentage_with_zero_total() {
    assert_eq!(
        calculate_percentage(50, 0),
        Err(String::from("Cannot calculate percentage: total is zero"))
    );
}

#[test]
fn percentage_rounds_toward_zero() {
    assert_eq!(calculate_percentage(1, 3), Ok(33));
    assert_eq!(calculate_percentage(-1, 3), Ok(-33));
    assert_eq!(calculate_percentage(1, -3), Ok(-33));
    assert_eq!(calculate_percentage(-1, -3), Ok(33));
    assert_eq!(calculate_percentage(7, 7), Ok(100));
    assert_eq!(calculate_percentage(0, -9), Ok(0));
}
