use f3::divider::{compute_divider, COUNTER_SPAN};

#[test]
fn smallest_period() {
    assert_eq!(compute_divider(1), (0, 1));
}

#[test]
fn small_periods_use_no_prescaler() {
    assert_eq!(compute_divider(16), (0, 16));
    assert_eq!(compute_divider(1000), (0, 1000));
    assert_eq!(compute_divider(65535), (0, 65535));
}

#[test]
fn full_span_period_reaches_the_span() {
    // A period of exactly one counter span keeps the prescaler at zero
    // and needs the full span as reload.
    assert_eq!(compute_divider(0x1_0000), (0, 0x1_0000));
    assert_eq!(COUNTER_SPAN, 0x1_0000);
}

#[test]
fn one_past_the_span_splits() {
    let (psc, reload) = compute_divider(0x1_0001);
    assert_eq!(psc, 1);
    assert_eq!(reload, 0x8000);
    // Not expressible: 0x10001 is odd, the product rounds down.
    assert_eq!((psc as u32 + 1) * reload, 0x1_0000);
}

#[test]
fn exact_multiple_of_the_span() {
    let (psc, reload) = compute_divider(0x2_0000);
    assert_eq!(psc, 1);
    assert_eq!(reload, 0x1_0000);
    assert_eq!((psc as u32 + 1) * reload, 0x2_0000);
}

#[test]
fn largest_period() {
    let (psc, reload) = compute_divider(u32::MAX);
    assert_eq!(psc, 0xFFFF);
    assert_eq!(reload, u32::MAX / 0x1_0000);
    // The product never exceeds the requested period.
    assert!((psc as u64 + 1) * reload as u64 <= u32::MAX as u64);
}

#[test]
fn product_never_exceeds_period() {
    for period in [1u32, 2, 15, 16, 17, 255, 65535, 65536, 65537, 131071, 131072, 0xFFFF_FFFF] {
        let (psc, reload) = compute_divider(period);
        let product = (psc as u64 + 1) * reload as u64;
        assert!(product <= period as u64);
        // When the prescaler step divides the period, the split is exact.
        if period as u64 % (psc as u64 + 1) == 0 {
            assert_eq!(product, period as u64);
        }
    }
}
