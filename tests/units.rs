use lorikeet_dash::units::{byte_exponent, byte_suffix, units_for_step, ChartUnits, StepKind};

fn pretty_bytes(num: f64) -> String {
    let negative = if num.is_sign_positive() { "" } else { "-" };
    let num = num.abs();
    if num < 1.0 {
        return format!("{}{} B", negative, num);
    }
    let e = byte_exponent(num as u128);
    format!("{}{:.2}{}", negative, num / 1000f64.powi(e as i32), byte_suffix(e))
}

#[test]
fn default_units_are_plain_values() {
    assert_eq!(ChartUnits::default(), ChartUnits::Value);
}

#[test]
fn units_follow_step_kind() {
    assert_eq!(units_for_step(StepKind::Http), ChartUnits::Seconds);
    assert_eq!(units_for_step(StepKind::LoadAverage), ChartUnits::Value);
    assert_eq!(units_for_step(StepKind::OtherSystem), ChartUnits::KiloBytes);
    assert_eq!(units_for_step(StepKind::Other), ChartUnits::Value);
}

#[test]
fn byte_exponent_boundaries() {
    assert_eq!(byte_exponent(1), 0);
    assert_eq!(byte_exponent(999), 0);
    assert_eq!(byte_exponent(1000), 1);
    assert_eq!(byte_exponent(999_999), 1);
    assert_eq!(byte_exponent(1_000_000), 2);
    assert_eq!(byte_exponent(1_572_864), 2);
    assert_eq!(byte_exponent(1_000_000_000_000_000_000_000_000), 8);
    assert_eq!(byte_exponent(u128::MAX), 8);
}

#[test]
fn byte_suffix_table_and_clamp() {
    assert_eq!(byte_suffix(0), "B");
    assert_eq!(byte_suffix(2), "MB");
    assert_eq!(byte_suffix(8), "YB");
    assert_eq!(byte_suffix(12), "YB");
}

#[test]
fn kilobytes_label_in_megabytes() {
    assert_eq!(pretty_bytes(1536.0 * 1024.0), "1.57MB");
}

#[test]
fn tiny_byte_count_keeps_raw_value() {
    let label = pretty_bytes(0.0005 * 1024.0);
    assert!(label.ends_with(" B"));
    assert!(label.starts_with("0.512"));
}

#[test]
fn negative_byte_count_keeps_sign() {
    assert_eq!(pretty_bytes(-2048.0), "-2.05KB");
}

#[test]
fn byte_label_is_deterministic() {
    assert_eq!(pretty_bytes(123_456.0), pretty_bytes(123_456.0));
}
