use sundaystudio::audio::recorder::rate::{select_capture_rate, RateRange};

#[test]
fn requested_rate_used_verbatim_when_supported() {
    // A device advertising a continuous 44.1–96 kHz range covers 48 kHz.
    let ranges = [RateRange::new(44_100, 96_000)];
    assert_eq!(select_capture_rate(48_000, &ranges, 44_100), 48_000);
}

#[test]
fn requested_rate_used_when_it_equals_a_range_bound() {
    let ranges = [RateRange::new(48_000, 48_000)];
    assert_eq!(select_capture_rate(48_000, &ranges, 44_100), 48_000);
}

#[test]
fn clamps_up_to_the_minimum_when_request_is_below_every_range() {
    // Interface fixed at 48 kHz; project wants 44.1 → clamp up to 48 kHz.
    let ranges = [RateRange::new(48_000, 48_000)];
    assert_eq!(select_capture_rate(44_100, &ranges, 96_000), 48_000);
}

#[test]
fn clamps_down_to_the_maximum_when_request_is_above_every_range() {
    // Interface fixed at 44.1 kHz; project wants 96 → clamp down to 44.1.
    let ranges = [RateRange::new(44_100, 44_100)];
    assert_eq!(select_capture_rate(96_000, &ranges, 48_000), 44_100);
}

#[test]
fn picks_nearest_supported_rate_across_discrete_ranges() {
    let ranges = [
        RateRange::new(44_100, 44_100),
        RateRange::new(96_000, 96_000),
    ];
    assert_eq!(select_capture_rate(48_000, &ranges, 0), 44_100);
    // Request 90k → 96 is nearer.
    assert_eq!(select_capture_rate(90_000, &ranges, 0), 96_000);
}

#[test]
fn nearest_is_independent_of_range_order() {
    let a = [
        RateRange::new(96_000, 96_000),
        RateRange::new(44_100, 44_100),
    ];
    let b = [
        RateRange::new(44_100, 44_100),
        RateRange::new(96_000, 96_000),
    ];
    assert_eq!(
        select_capture_rate(48_000, &a, 0),
        select_capture_rate(48_000, &b, 0)
    );
}

#[test]
fn ties_resolve_to_the_lower_rate_deterministically() {
    let mid = (44_100 + 48_000) / 2; // 46_050, equidistant after integer div
    let ranges = [
        RateRange::new(44_100, 44_100),
        RateRange::new(48_000, 48_000),
    ];
    assert_eq!(select_capture_rate(mid, &ranges, 0), 44_100);
}

#[test]
fn falls_back_to_default_when_no_ranges_advertised() {
    assert_eq!(select_capture_rate(48_000, &[], 44_100), 44_100);
}

#[test]
fn overlapping_ranges_covering_request_use_it_verbatim() {
    let ranges = [
        RateRange::new(8_000, 48_000),
        RateRange::new(44_100, 192_000),
    ];
    assert_eq!(select_capture_rate(96_000, &ranges, 0), 96_000);
}

#[test]
fn swapped_bounds_are_normalised() {
    let r = RateRange::new(96_000, 44_100);
    assert_eq!(r.min, 44_100);
    assert_eq!(r.max, 96_000);
}

#[test]
fn tie_prefers_lower_even_when_listed_last() {
    let ranges = [
        RateRange::new(48_000, 48_000),
        RateRange::new(44_100, 44_100),
    ];
    assert_eq!(select_capture_rate(46_050, &ranges, 0), 44_100);
}

#[test]
fn nearest_bound_of_a_wide_range_wins() {
    // 88.2–96 k and 8–32 k: a 40 k request is 8k from 32k and 48.2k from 88.2k.
    let ranges = [
        RateRange::new(88_200, 96_000),
        RateRange::new(8_000, 32_000),
    ];
    assert_eq!(select_capture_rate(40_000, &ranges, 0), 32_000);
}
