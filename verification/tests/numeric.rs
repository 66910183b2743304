use rst_tax_calculator::numeric::{fib, is_prime, sum_as_string};

#[test]
fn fib_small_values() {
    assert_eq!(fib(0), 0);
    assert_eq!(fib(1), 1);
    assert_eq!(fib(2), 1);
    assert_eq!(fib(3), 2);
    assert_eq!(fib(10), 55);
}

#[test]
fn fib_negative_argument_is_zero() {
    assert_eq!(fib(-1), 0);
    assert_eq!(fib(-100), 0);
}

#[test]
fn fib_large_values() {
    assert_eq!(fib(50), 12586269025);
    assert_eq!(fib(90), 2880067194370816120);
    assert_eq!(fib(91), 4660046610375530309);
}

#[test]
fn is_prime_small_values() {
    assert_eq!(is_prime(-7), 0);
    assert_eq!(is_prime(0), 0);
    assert_eq!(is_prime(1), 0);
    assert_eq!(is_prime(2), 1);
    assert_eq!(is_prime(3), 1);
    assert_eq!(is_prime(4), 0);
}

#[test]
fn is_prime_larger_values() {
    assert_eq!(is_prime(17), 1);
    assert_eq!(is_prime(25), 0);
    assert_eq!(is_prime(97), 1);
    assert_eq!(is_prime(1000003), 1);
    assert_eq!(is_prime(1000001), 0);
}

#[test]
fn sum_as_string_values() {
    assert_eq!(sum_as_string(2, 3), "5");
    assert_eq!(sum_as_string(0, 0), "0");
    assert_eq!(sum_as_string(123, 877), "1000");
    assert_eq!(sum_as_string(usize::MAX, 0), usize::MAX.to_string());
}
