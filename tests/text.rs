use unitconv::{decimal_text, normalize_decimal};

#[test]
fn target_values_are_rounded_then_trimmed() {
    assert_eq!(normalize_decimal(&format!("{:.4}", 100.0f64)), "100.0");
    assert_eq!(normalize_decimal(&format!("{:.4}", 98.6f64)), "98.6");
    assert_eq!(normalize_decimal(&format!("{:.4}", 33.33333f64)), "33.3333");
    assert_eq!(normalize_decimal(&format!("{:.4}", 0.0f64)), "0.0");
    assert_eq!(normalize_decimal(&format!("{:.4}", -0.5f64)), "-0.5");
}

#[test]
fn source_values_gain_a_fraction() {
    assert_eq!(normalize_decimal(&5f64.to_string()), "5.0");
    assert_eq!(normalize_decimal(&12.25f64.to_string()), "12.25");
    assert_eq!(normalize_decimal("100"), "100.0");
}

#[test]
fn normalize_edge_cases() {
    assert_eq!(normalize_decimal(""), ".0");
    assert_eq!(normalize_decimal("."), ".0");
    assert_eq!(normalize_decimal("10.0100"), "10.01");
    assert_eq!(normalize_decimal("1000"), "1000.0");
}

#[test]
fn decimal_numerals() {
    assert_eq!(decimal_text(0), "0");
    assert_eq!(decimal_text(7), "7");
    assert_eq!(decimal_text(10), "10");
    assert_eq!(decimal_text(1234567), "1234567");
    assert_eq!(decimal_text(usize::MAX), usize::MAX.to_string());
}
