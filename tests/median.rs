use stats::median::median;
use stats::order::total_order_key;

fn bits(values: &[f64]) -> Vec<u64> {
    values.iter().map(|v| v.to_bits()).collect()
}

fn median_of(values: &[f64]) -> Option<f64> {
    median(&bits(values)).map(f64::from_bits)
}

#[test]
fn test_median_added() {
    assert_eq!(Some(-1.3), median_of(&[-1.7, 4.6, 0.0, -1.3, 9.5, -4.5]));
}

#[test]
fn median_of_empty_is_absent() {
    assert_eq!(None, median_of(&[]));
}

#[test]
fn median_of_one_value_is_absent() {
    assert_eq!(None, median_of(&[3.0]));
}

#[test]
fn median_of_even_length_takes_lower_middle() {
    assert_eq!(Some(0.0), median_of(&[0.0, 0.5, -1.0, 1.0]));
}

#[test]
fn median_of_odd_length_takes_element_before_middle() {
    assert_eq!(Some(2.0), median_of(&[5.0, 1.0, 4.0, 2.0, 3.0]));
}

#[test]
fn median_of_two_values_is_the_smaller() {
    assert_eq!(Some(-7.25), median_of(&[8.5, -7.25]));
}

#[test]
fn median_with_repeated_values() {
    assert_eq!(Some(2.0), median_of(&[2.0, 2.0, 2.0, 9.0]));
}

#[test]
fn median_orders_infinities() {
    assert_eq!(
        Some(1.0),
        median_of(&[f64::INFINITY, 2.0, f64::NEG_INFINITY, 1.0])
    );
}

#[test]
fn median_puts_negative_zero_before_positive_zero() {
    let r = median(&bits(&[0.0, -0.0])).unwrap();
    assert_eq!((-0.0f64).to_bits(), r);
}

#[test]
fn median_twice_gives_same_bits_and_leaves_input() {
    let input = bits(&[-1.7, 4.6, 0.0, -1.3, 9.5, -4.5]);
    let kept = input.clone();
    let first = median(&input);
    let second = median(&kept.clone());
    assert_eq!(first, second);
    assert_eq!(kept, input);
}

#[test]
fn median_ignores_order_of_input() {
    let a = median_of(&[-1.7, 4.6, 0.0, -1.3, 9.5, -4.5]);
    let b = median_of(&[9.5, -4.5, -1.3, 4.6, -1.7, 0.0]);
    let c = median_of(&[0.0, -1.3, -1.7, -4.5, 4.6, 9.5]);
    assert_eq!(a, b);
    assert_eq!(a, c);
}

#[test]
fn total_order_key_follows_numeric_order() {
    let ordered = [f64::NEG_INFINITY, -1.0e300, -2.5, -1.0e-300, -0.0, 0.0, 1.0e-300, 3.0, f64::INFINITY];
    for pair in ordered.windows(2) {
        assert!(total_order_key(pair[0].to_bits()) < total_order_key(pair[1].to_bits()));
    }
}
