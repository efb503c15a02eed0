use suitey_rust_example::{add, multiply};

#[test]
fn test_add() {
    let result = add(2, 2);
    assert_eq!(result, 4);
}

#[test]
fn test_multiply() {
    let result = multiply(3, 4);
    assert_eq!(result, 12);
}

#[test]
fn test_multiply_zero() {
    let result = multiply(5, 0);
    assert_eq!(result, 0);
}

#[test]
fn integration_test_add() {
    assert_eq!(add(10, 20), 30);
}

#[test]
fn integration_test_multiply() {
    assert_eq!(multiply(5, 6), 30);
}

#[test]
fn integration_test_combined() {
    // `multiply` works on `i32` and `add` on `usize`, so the product is
    // converted on its way from one to the other.
    let product = usize::try_from(multiply(2, 3)).unwrap();
    let result = add(product, 4);
    assert_eq!(result, 10);
}
