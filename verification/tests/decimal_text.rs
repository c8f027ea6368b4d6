use echo_service::decimal::u64_to_decimal;
use echo_service::response::elapsed_millis;

#[test]
fn zero_renders_as_single_digit() {
    assert_eq!(u64_to_decimal(0), "0");
}

#[test]
fn small_numbers_render_exactly() {
    assert_eq!(u64_to_decimal(7), "7");
    assert_eq!(u64_to_decimal(10), "10");
    assert_eq!(u64_to_decimal(105), "105");
}

#[test]
fn delay_cap_renders_exactly() {
    assert_eq!(u64_to_decimal(120000), "120000");
}

#[test]
fn largest_value_renders_exactly() {
    assert_eq!(u64_to_decimal(u64::MAX), "18446744073709551615");
}

#[test]
fn elapsed_is_difference_of_readings() {
    assert_eq!(elapsed_millis(100, 250), 150);
    assert_eq!(elapsed_millis(250, 250), 0);
}

#[test]
fn elapsed_never_negative() {
    assert_eq!(elapsed_millis(250, 100), 0);
    assert_eq!(elapsed_millis(i64::MIN, i64::MAX), u64::MAX);
}
