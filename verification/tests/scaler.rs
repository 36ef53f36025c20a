use picotroller::scaler::{scale, scale_axis, scale_i8, Polarity, ADC_MAX_VALUE_3V3};

#[test]
fn scale_ends_are_exact() {
    for max in [1u16, 2, 255, 1023, 4095, 65535] {
        assert_eq!(scale(0, max), -128);
        assert_eq!(scale(max, max), 127);
    }
}

#[test]
fn scale_midpoint_truncates() {
    assert_eq!(scale(2047, 4095), -1);
    assert_eq!(scale(2048, 4095), -1);
    assert_eq!(scale(2056, 4095), 0);
    assert_eq!(scale_i8(2047), -1);
}

#[test]
fn scale_exact_values() {
    assert_eq!(scale(70, 100), 50);
    assert_eq!(scale(1, 4095), -128);
    assert_eq!(scale(17, 4095), -127);
    assert_eq!(scale(4094, 4095), 126);
    assert_eq!(scale(1000, 4095), -66);
    assert_eq!(scale(3000, 4095), 58);
}

#[test]
fn scale_is_monotonic_and_bounded() {
    let mut last = scale(0, ADC_MAX_VALUE_3V3);
    for raw in 0..=ADC_MAX_VALUE_3V3 {
        let now = scale(raw, ADC_MAX_VALUE_3V3);
        assert!(now >= last);
        assert!((-128..=127).contains(&(now as i32)));
        last = now;
    }
}

#[test]
fn inverted_scale_is_antitonic() {
    let mut last = scale_axis(0, ADC_MAX_VALUE_3V3, Polarity::Inverted);
    assert_eq!(last, 127);
    for raw in 0..=ADC_MAX_VALUE_3V3 {
        let now = scale_axis(raw, ADC_MAX_VALUE_3V3, Polarity::Inverted);
        assert!(now <= last);
        last = now;
    }
    assert_eq!(last, -128);
}

#[test]
fn inverted_scale_mirrors_the_sample() {
    for raw in [0u16, 1, 100, 2047, 2048, 4000, 4095] {
        assert_eq!(
            scale_axis(raw, 4095, Polarity::Inverted),
            scale(4095 - raw, 4095)
        );
        assert_eq!(scale_axis(raw, 4095, Polarity::Direct), scale(raw, 4095));
    }
    assert_eq!(scale_axis(2047, 4095, Polarity::Inverted), -1);
}

#[test]
fn sample_above_full_scale_is_clamped() {
    assert_eq!(scale(4096, 4095), 127);
    assert_eq!(scale(65535, 4095), 127);
    assert_eq!(scale(65535, 1), 127);
    assert_eq!(scale_i8(65535), 127);
    assert_eq!(scale_axis(4096, 4095, Polarity::Inverted), -128);
    assert_eq!(scale_axis(65535, 4095, Polarity::Inverted), -128);
}

#[test]
fn scale_i8_uses_the_twelve_bit_range() {
    assert_eq!(ADC_MAX_VALUE_3V3, 4095);
    for raw in [0u16, 5, 999, 2047, 4095, 5000] {
        assert_eq!(scale_i8(raw), scale(raw, 4095));
    }
    assert_eq!(scale_i8(0), -128);
    assert_eq!(scale_i8(4095), 127);
}
