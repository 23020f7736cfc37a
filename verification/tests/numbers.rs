use std::time::Duration;

use deadlockshock::binary32::{millis_text, seconds_text, single, Binary32};

fn number(value: f32) -> Binary32 {
    single(value.to_bits())
}

/// Bit patterns spread over all exponents, with the borderline ones.
fn patterns() -> Vec<u32> {
    let mut patterns: Vec<u32> = vec![
        0,
        1,
        0x007f_ffff,
        0x0080_0000,
        0x7f7f_ffff,
        0x7f80_0000,
        0x7f80_0001,
        0x7fc0_0000,
        0x8000_0000,
        0x8000_0001,
        0xff80_0000,
        0xffc0_0000,
    ];
    let mut state: u64 = 0x2545_f491_4f6c_dd1d;
    for _ in 0..4_000 {
        state = state
            .wrapping_mul(6_364_136_223_846_793_005)
            .wrapping_add(1_442_695_040_888_963_407);
        patterns.push((state >> 32) as u32);
    }
    for tenth in 0..1_200 {
        patterns.push((tenth as f32 / 10.0).to_bits());
        patterns.push((tenth as f32 / 20.0).to_bits());
        patterns.push((-(tenth as f32) / 7.0).to_bits());
    }
    patterns
}

#[test]
fn numbers_are_told_apart_like_singles() {
    for bits in patterns() {
        let value = f32::from_bits(bits);
        assert_eq!(single(bits).is_finite(), value.is_finite());
        assert_eq!(single(bits).is_nan(), value.is_nan());
    }
}

#[test]
fn numbers_compare_like_singles() {
    let patterns = patterns();
    for (index, a) in patterns.iter().enumerate() {
        for step in [0, 1, 2, 3, 17] {
            let b = patterns[(index + step) % patterns.len()];
            let (x, y) = (f32::from_bits(*a), f32::from_bits(b));
            assert_eq!(single(*a).is_above(single(b)), x > y);
            assert_eq!(single(*a).is_equal(single(b)), x == y);
        }
    }
}

#[test]
fn numbers_are_limited_like_singles() {
    for bits in patterns() {
        let value = f32::from_bits(bits);
        if value.is_finite() {
            assert_eq!(
                single(bits).clamp(number(0.3), number(3.0)).bits,
                value.clamp(0.3, 3.0).to_bits()
            );
            let larger = single(bits).max(number(1.0));
            assert_eq!(f32::from_bits(larger.bits), value.max(1.0));
        }
    }
}

#[test]
fn whole_numbers_are_read_exactly() {
    for intensity in 1..=100_u32 {
        assert_eq!(number(intensity as f32).whole_number(), Some(intensity));
        if intensity < 100 {
            let above = single((intensity as f32).to_bits() + 1);
            assert_eq!(above.whole_number(), None);
            assert_eq!(number(intensity as f32 + 0.5).whole_number(), None);
        }
    }
}

#[test]
fn durations_are_read_in_rounded_thousandths() {
    let (low, high) = (0.3_f32.to_bits(), 3.0_f32.to_bits());
    let mut bits = low;
    while bits <= high {
        let value = f32::from_bits(bits);
        assert_eq!(
            single(bits).in_thousandths(),
            (value * 1_000.0).round() as u64
        );
        bits += 1_009;
    }
    for bits in [low, low + 1, high - 1, high] {
        let value = f32::from_bits(bits);
        assert_eq!(
            single(bits).in_thousandths(),
            (value * 1_000.0).round() as u64
        );
    }
    assert_eq!(number(1.234).in_thousandths(), 1_234);
}

#[test]
fn numbers_are_written_like_singles() {
    for bits in patterns() {
        let value = f32::from_bits(bits);
        assert_eq!(single(bits).rounded_text(), format!("{value:.0}"));
        assert_eq!(single(bits).tenths_text(), format!("{value:.1}"));
    }
    assert_eq!(number(0.5).rounded_text(), "0");
    assert_eq!(number(1.5).rounded_text(), "2");
    assert_eq!(number(0.25).tenths_text(), "0.2");
    assert_eq!(number(0.75).tenths_text(), "0.8");
}

#[test]
fn milliseconds_are_written_in_seconds() {
    for millis in (0..4_000_u64).chain([
        16_777_216,
        16_777_217,
        16_777_219,
        999_999_999_950,
        u64::MAX,
        u64::MAX / 3,
    ]) {
        assert_eq!(
            millis_text(millis),
            format!("{:.1}", millis as f32 / 1_000.0)
        );
    }
    assert_eq!(millis_text(500), "0.5");
}

#[test]
fn elapsed_time_is_written_in_seconds() {
    for secs in 0..60_u64 {
        for nanos in [
            0,
            1,
            49_999_999,
            50_000_000,
            50_000_001,
            149_999_999,
            150_000_000,
            250_000_000,
            949_999_999,
            950_000_000,
            999_999_999,
        ] {
            assert_eq!(
                seconds_text(secs, nanos),
                format!("{:.1}", Duration::new(secs, nanos).as_secs_f32())
            );
        }
    }
}

#[test]
fn numbers_are_equal_as_floats_are() {
    let values = [
        0.0_f32,
        -0.0,
        1.0,
        -1.0,
        0.3,
        100.0,
        f32::MIN_POSITIVE,
        f32::MAX,
        f32::INFINITY,
        f32::NEG_INFINITY,
        f32::NAN,
        -f32::NAN,
    ];
    for a in values {
        for b in values {
            assert_eq!(
                single(a.to_bits()) == single(b.to_bits()),
                a == b,
                "{a} and {b}"
            );
        }
    }
}
