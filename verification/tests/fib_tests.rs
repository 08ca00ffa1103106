use amqp_examples::fib::{checked_fibonacci, fibonacci};

#[test]
fn fibonacci_small_values() {
    let expected: [i64; 11] = [0, 1, 1, 2, 3, 5, 8, 13, 21, 34, 55];
    for (n, want) in expected.iter().enumerate() {
        assert_eq!(fibonacci(n as i64), *want);
    }
}

#[test]
fn fibonacci_largest_that_fits() {
    assert_eq!(fibonacci(92), 7540113804746346429);
    assert_eq!(checked_fibonacci(92), Some(7540113804746346429));
}

#[test]
fn checked_fibonacci_overflow_and_negative() {
    assert_eq!(checked_fibonacci(93), None);
    assert_eq!(checked_fibonacci(1000), None);
    assert_eq!(checked_fibonacci(-1), None);
    assert_eq!(checked_fibonacci(i64::MIN), None);
}

#[test]
fn checked_fibonacci_agrees_with_fibonacci() {
    for n in 0..=92i64 {
        assert_eq!(checked_fibonacci(n), Some(fibonacci(n)));
    }
}
