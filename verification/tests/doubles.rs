//! Texts of spans and time stamps, against those of floating-point numbers.

use sanctuary_player::double::{divide, round_half_even, round_whole, seconds};
use sanctuary_player::playback::debug::{
    push_millis, push_whole_millis, span_seconds, stamp,
};
use sanctuary_player::services::remote::RemotePositionService;
use sanctuary_player::time::Duration;
use sanctuary_player::time_base::TimeBase;
use sanctuary_player::video::VideoSource;

/// Numbers of every size, in an order that repeats only after all of them.
struct Numbers(u64);

impl Numbers {
    fn next(&mut self) -> u64 {
        self.0 = self.0.wrapping_mul(6_364_136_223_846_793_005).wrapping_add(1_442_695_040_888_963_407);
        let shift = (self.0 >> 40) % 63;
        (self.0 ^ (self.0 << 21)) >> shift
    }
}

fn spans() -> Vec<(u64, u32)> {
    let mut spans = Vec::new();
    for half in 0..4_000 {
        spans.push((half / 2_000, (half % 2_000) as u32 * 500_000));
    }
    for secs in [0, 1, 3, 1 << 24, (1 << 24) + 1, (1 << 52) - 1, 1 << 52, (1 << 53) + 1, u64::MAX] {
        for nanos in [0, 1, 62_500_000, 499_999_999, 500_000_000, 500_000_001, 999_999_999] {
            spans.push((secs, nanos));
        }
    }
    let mut numbers = Numbers(7);
    for _ in 0..20_000 {
        spans.push((numbers.next(), (numbers.next() % 1_000_000_000) as u32));
    }
    spans
}

fn span_of(secs: u64, nanos: u32) -> Duration {
    Duration { nanos: u128::from(secs) * 1_000_000_000 + u128::from(nanos) }
}

#[test]
fn spans_are_written_like_floats() {
    for (secs, nanos) in spans() {
        let span = span_of(secs, nanos);
        let float = std::time::Duration::new(secs, nanos).as_secs_f64();
        assert_eq!(span_seconds(span), format!("{float:.3}s"), "{secs} {nanos}");
        let mut millis = String::new();
        push_millis(&mut millis, span);
        assert_eq!(millis, format!("{:.1} ms", float * 1000.0), "{secs} {nanos}");
        let mut millis = String::new();
        push_whole_millis(&mut millis, span);
        assert_eq!(millis, format!("{:.0} ms", float * 1000.0), "{secs} {nanos}");
    }
}

#[test]
fn halves_of_a_thousandth_go_where_a_float_puts_them() {
    assert_eq!(span_seconds(span_of(0, 62_500_000)), "0.062s");
    assert_eq!(span_seconds(span_of(0, 4_500_000)), "0.004s");
    assert_eq!(span_seconds(span_of(0, 2_500_000)), "0.003s");
    assert_eq!(span_seconds(span_of(0, 999_999_999)), "1.000s");
}

#[test]
fn time_stamps_are_written_like_floats() {
    let mut numbers = Numbers(11);
    let mut bases = vec![(1, 90_000), (1, 48_000), (1001, 30_000), (-1, 90_000), (1, -3), (0, 5)];
    bases.extend([(i64::MAX, 1), (i64::MIN, i64::MAX), (1, i64::MAX), (i64::MIN, i64::MIN)]);
    for _ in 0..200 {
        bases.push((numbers.next() as i64, (numbers.next() | 1) as i64));
    }
    for (num, den) in bases {
        for _ in 0..100 {
            for pts in [numbers.next() as i64, -((numbers.next() >> 1) as i64), 0, 5_625] {
                let float = pts as f64 * (num as f64 / den as f64);
                assert_eq!(
                    stamp(pts, TimeBase { num, den }),
                    format!("{pts} ({float:.3}s)"),
                    "{pts} {num} {den}"
                );
            }
        }
    }
    for (pts, num) in [(0, 1), (1, 0), (1, 1), (-1, 1), (1, -1)] {
        let float = pts as f64 * (num as f64 / 0.0);
        assert_eq!(stamp(pts, TimeBase { num, den: 0 }), format!("{pts} ({float:.3}s)"));
    }
}

#[test]
fn saved_seconds_are_rounded_like_floats() {
    let service = RemotePositionService::new();
    let source = VideoSource::parse("2386400830").unwrap();
    for (secs, nanos) in spans().into_iter().step_by(7) {
        let float = std::time::Duration::new(secs, nanos).as_secs_f64();
        let expected = float.round().clamp(0.0, i64::MAX as f64) as i64;
        let address = service.save_url("u", "d", &source, span_of(secs, nanos)).unwrap();
        assert!(address.ends_with(&format!("position={expected}")), "{secs} {nanos} {address}");
    }
}

#[test]
fn doubles_hold_fifty_three_digits() {
    assert_eq!(round_whole((1 << 53) - 1), (1 << 53) - 1);
    assert_eq!(round_whole((1 << 53) + 1), 1 << 53);
    assert_eq!(round_whole((1 << 53) + 3), (1 << 53) + 4);
    assert_eq!(round_half_even(5, 2), 2);
    assert_eq!(round_half_even(7, 2), 4);
    let mut numbers = Numbers(3);
    for _ in 0..10_000 {
        let (n, d) = (numbers.next(), numbers.next().max(1));
        assert_eq!(round_whole(n.into()), n as f64 as u128);
        let (n, d) = (n >> 11, (d >> 11).max(1));
        let quotient = divide(n.into(), d.into());
        assert_eq!(quotient.digits as f64 / quotient.over as f64, n as f64 / d as f64);
    }
    let one_and_a_half = seconds(Duration::from_millis(1_500));
    assert_eq!(2 * one_and_a_half.digits, 3 * one_and_a_half.over);
}
