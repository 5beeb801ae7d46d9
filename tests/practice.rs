use basics::practice::{fibonacci, FibError};

#[test]
fn fibonacci_base_cases() {
    assert_eq!(fibonacci(0), Ok(0));
    assert_eq!(fibonacci(1), Ok(1));
}

#[test]
fn fibonacci_small_values() {
    assert_eq!(fibonacci(2), Ok(1));
    assert_eq!(fibonacci(10), Ok(55));
    assert_eq!(fibonacci(20), Ok(6765));
}

#[test]
fn fibonacci_recurrence_holds() {
    for n in 2..=46 {
        let a = fibonacci(n).unwrap() as i64;
        let b = fibonacci(n - 1).unwrap() as i64;
        let c = fibonacci(n - 2).unwrap() as i64;
        assert_eq!(a, b + c);
    }
}

#[test]
fn fibonacci_negative_is_invalid_argument() {
    assert_eq!(fibonacci(-1), Err(FibError::InvalidArgument));
    assert_eq!(fibonacci(i32::MIN), Err(FibError::InvalidArgument));
}

#[test]
fn fibonacci_largest_term_that_fits() {
    assert_eq!(fibonacci(46), Ok(1836311903));
}

#[test]
fn fibonacci_overflow() {
    assert_eq!(fibonacci(47), Err(FibError::Overflow));
    assert_eq!(fibonacci(i32::MAX), Err(FibError::Overflow));
}
