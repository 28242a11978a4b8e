use calculator::{Calculator, DEFAULT_PRECISION};

#[test]
fn default_precision_is_two() {
    assert_eq!(DEFAULT_PRECISION, 2);
}

#[test]
fn new_sets_default_precision() {
    let calc = Calculator::new();
    assert_eq!(format!("{:?}", calc), "Calculator { precision: 2 }");
}

#[test]
fn every_new_calculator_is_the_same() {
    let first = Calculator::new();
    let _ = first.check_divisor(0);
    let _ = first.check_divisor(42);
    let second = Calculator::new();
    assert_eq!(first, second);
    assert_eq!(second, Calculator::new());
}
