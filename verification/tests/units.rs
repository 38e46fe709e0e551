use oled_status::{Base, GlancableSizesWithOrdersOfMagnitude};

#[test]
fn test_kib() {
    let v = GlancableSizesWithOrdersOfMagnitude::new(4096, Base::Two);
    assert_eq!(v.value, 4);
    assert_eq!(v.unit_short, "KiB");
}

#[test]
fn test_kb() {
    let v = GlancableSizesWithOrdersOfMagnitude::new(4000, Base::Ten);
    assert_eq!(v.value, 4);
    assert_eq!(v.unit_short, "KB");
}

#[test]
fn test_6tb_metric() {
    let v = GlancableSizesWithOrdersOfMagnitude::new(6_001_000_443_904, Base::Ten);
    assert_eq!(v.value, 6);
    assert_eq!(v.unit_short, "TB");
}

#[test]
fn test_6tb_binary() {
    let v = GlancableSizesWithOrdersOfMagnitude::new(6_001_000_443_904, Base::Two);
    assert_eq!(v.value, 5);
    assert_eq!(v.unit_short, "TiB");
}

#[test]
fn test_little_less_than_4tb_metric() {
    let v = GlancableSizesWithOrdersOfMagnitude::new(3_920_320_420_904, Base::Ten);
    assert_eq!(v.value, 4);
    assert_eq!(v.unit_short, "TB");
}

#[test]
fn test_zero_formats_as_zero_bytes() {
    let metric = GlancableSizesWithOrdersOfMagnitude::new(0, Base::Ten);
    assert_eq!(metric.value, 0);
    assert_eq!(metric.unit_short, "B");
    assert_eq!(metric.label(), "0B");
    let binary = GlancableSizesWithOrdersOfMagnitude::new(0, Base::Two);
    assert_eq!(binary.value, 0);
    assert_eq!(binary.unit_short, "B");
    assert_eq!(binary.label(), "0B");
}

#[test]
fn test_below_base_keeps_exact_value() {
    let v = GlancableSizesWithOrdersOfMagnitude::new(999, Base::Ten);
    assert_eq!(v.value, 999);
    assert_eq!(v.unit_short, "B");
    let w = GlancableSizesWithOrdersOfMagnitude::new(512, Base::Two);
    assert_eq!(w.value, 512);
    assert_eq!(w.unit_short, "B");
}

#[test]
fn test_rounding_boundary_not_crossed() {
    // 4.9 of a unit: the lost fraction is exactly 0.9, which does not exceed
    // nine tenths, so no rounding happens.
    let v = GlancableSizesWithOrdersOfMagnitude::new(4900, Base::Ten);
    assert_eq!(v.value, 4);
    assert_eq!(v.unit_short, "KB");
    // Just past the boundary it rounds up.
    let w = GlancableSizesWithOrdersOfMagnitude::new(4901, Base::Ten);
    assert_eq!(w.value, 5);
    assert_eq!(w.unit_short, "KB");
}

#[test]
fn test_binary_rounding_uses_binary_base() {
    // 0.9 of 1024 is 921.6, so a lost fraction of 921 stays put and one of
    // 922 rounds up.
    let v = GlancableSizesWithOrdersOfMagnitude::new(4 * 1024 + 921, Base::Two);
    assert_eq!(v.value, 4);
    assert_eq!(v.unit_short, "KiB");
    let w = GlancableSizesWithOrdersOfMagnitude::new(4 * 1024 + 922, Base::Two);
    assert_eq!(w.value, 5);
    assert_eq!(w.unit_short, "KiB");
}

#[test]
fn test_rounding_can_reach_full_base() {
    // The one corner where the shown value equals the base: a final
    // remainder of base - 1 rounded up.
    let v = GlancableSizesWithOrdersOfMagnitude::new(999_999, Base::Ten);
    assert_eq!(v.value, 1000);
    assert_eq!(v.unit_short, "KB");
}

#[test]
fn test_largest_values_stay_within_prefixes() {
    let v = GlancableSizesWithOrdersOfMagnitude::new(u64::MAX, Base::Ten);
    assert_eq!(v.unit_short, "EB");
    assert!(v.value <= 1000);
    let w = GlancableSizesWithOrdersOfMagnitude::new(u64::MAX, Base::Two);
    assert_eq!(w.unit_short, "EiB");
    assert!(w.value <= 1024);
}

#[test]
fn test_label_concatenates_value_and_unit() {
    let v = GlancableSizesWithOrdersOfMagnitude::new(6_001_000_443_904, Base::Ten);
    assert_eq!(v.label(), "6TB");
    let w = GlancableSizesWithOrdersOfMagnitude::new(4096, Base::Two);
    assert_eq!(w.label(), "4KiB");
}
