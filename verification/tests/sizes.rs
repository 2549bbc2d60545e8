use cli_utils::sizes::{
    format_size, format_size_binary, format_size_decimal, format_size_in, SizeBase,
};

#[test]
fn zero_is_plain_bytes() {
    assert_eq!(format_size_decimal(0), "0 bytes");
    assert_eq!(format_size_binary(0), "0 bytes");
}

#[test]
fn small_counts_are_plain_bytes_in_both_bases() {
    assert_eq!(format_size_decimal(500), "500 bytes");
    assert_eq!(format_size_binary(500), "500 bytes");
}

#[test]
fn decimal_threshold_boundary() {
    assert_eq!(format_size_decimal(999), "999 bytes");
    assert_eq!(format_size_decimal(1000), "1.00 KB");
}

#[test]
fn binary_threshold_boundary() {
    assert_eq!(format_size_binary(1023), "1023 bytes");
    assert_eq!(format_size_binary(1024), "1.00 KB");
    assert_eq!(format_size_decimal(1024), "1.02 KB");
}

#[test]
fn one_binary_megabyte() {
    assert_eq!(format_size_binary(1024 * 1024), "1.00 MB");
}

#[test]
fn five_decimal_gigabytes() {
    assert_eq!(format_size_decimal(5_000_000_000), "5.00 GB");
}

#[test]
fn format_size_uses_decimal_scaling() {
    assert_eq!(format_size(6888837399), "6.89 GB");
    assert_eq!(format_size(500), "500 bytes");
    assert_eq!(format_size(2500), "2.50 KB");
}

#[test]
fn base_selector_matches_the_named_formatters() {
    for &v in &[0u64, 500, 999, 1000, 1024, 2500, 5_000_000_000, u64::MAX] {
        assert_eq!(format_size_in(v, SizeBase::Decimal), format_size_decimal(v));
        assert_eq!(format_size_in(v, SizeBase::Binary), format_size_binary(v));
    }
}

#[test]
fn fractional_magnitudes_keep_two_digits() {
    assert_eq!(format_size_decimal(2500), "2.50 KB");
    assert_eq!(format_size_binary(2500), "2.44 KB");
    assert_eq!(format_size_decimal(6_888_822_237_399), "6.89 TB");
    assert_eq!(format_size_binary(6_888_822_237_399), "6.27 TB");
}

#[test]
fn rounding_is_to_nearest_with_ties_up() {
    // 1005 / 1000 = 1.005: the tie rounds up to 1.01.
    assert_eq!(format_size_decimal(1005), "1.01 KB");
    // 1004 / 1000 = 1.004 rounds down.
    assert_eq!(format_size_decimal(1004), "1.00 KB");
    // Rounding can carry into the integer part at a unit boundary.
    assert_eq!(format_size_decimal(999_999), "1000.00 KB");
    assert_eq!(format_size_decimal(1_000_000), "1.00 MB");
}

fn displayed_magnitude(s: &str) -> f64 {
    let number = s.split(' ').next().unwrap();
    number.parse::<f64>().unwrap()
}

fn unit_label(s: &str) -> &str {
    s.split(' ').nth(1).unwrap()
}

#[test]
fn magnitude_is_monotone_within_a_unit() {
    // Increasing byte counts that keep the same unit never show a smaller
    // magnitude.
    let decimal_kb = [1000u64, 1004, 1005, 2500, 500_000, 999_994];
    let mut last = 0.0;
    for &v in &decimal_kb {
        let shown = format_size_decimal(v);
        assert_eq!(unit_label(&shown), "KB");
        let magnitude = displayed_magnitude(&shown);
        assert!(last <= magnitude);
        last = magnitude;
    }
    let binary_mb = [1u64 << 20, 3 << 20, (1 << 30) - (1 << 25)];
    let mut last = 0.0;
    for &v in &binary_mb {
        let shown = format_size_binary(v);
        assert_eq!(unit_label(&shown), "MB");
        let magnitude = displayed_magnitude(&shown);
        assert!(last <= magnitude);
        last = magnitude;
    }
}

#[test]
fn unit_selection_matches_the_threshold_powers() {
    // Within [1000^i, 1000^(i+1)) the decimal formatter picks unit i.
    let expectations = [
        (1_000u64, "KB"),
        (999_994, "KB"),
        (1_000_000, "MB"),
        (999_994_999, "MB"),
        (1_000_000_000, "GB"),
        (1_000_000_000_000, "TB"),
        (1_000_000_000_000_000, "PB"),
        (u64::MAX, "PB"),
    ];
    for &(v, unit) in &expectations {
        assert_eq!(unit_label(&format_size_decimal(v)), unit);
    }
    // Same for powers of 1024 in binary units.
    let expectations = [
        (1u64 << 10, "KB"),
        (1 << 20, "MB"),
        (1 << 30, "GB"),
        (1 << 40, "TB"),
        (1 << 50, "PB"),
        (u64::MAX, "PB"),
    ];
    for &(v, unit) in &expectations {
        assert_eq!(unit_label(&format_size_binary(v)), unit);
    }
}

#[test]
fn largest_counts_saturate_at_petabytes() {
    assert_eq!(format_size_decimal(u64::MAX), "18446.74 PB");
    assert_eq!(format_size_binary(u64::MAX), "16384.00 PB");
}
