//! Durations, shares and their statistics.

use netblame::measure::{fmt_ms, Millis, Percent};
use netblame::probe::path::{stats, summarize};
use netblame::addr::parse_ip;

fn ms(v: f64) -> Millis {
    Millis {
        nanos: (v * 1_000_000.0) as u64,
    }
}

#[test]
fn stats_basic() {
    let (min, avg, max, jitter) = stats(&[ms(10.0), ms(12.0), ms(14.0)]);
    assert_eq!(min, Some(ms(10.0)));
    assert_eq!(avg, Some(ms(12.0)));
    assert_eq!(max, Some(ms(14.0)));
    assert!(jitter.unwrap().nanos > ms(1.0).nanos && jitter.unwrap().nanos < ms(2.0).nanos);
    assert_eq!(jitter, Some(Millis { nanos: 1_632_993 }));
}

#[test]
fn stats_empty() {
    assert_eq!(stats(&[]), (None, None, None, None));
}

#[test]
fn durations_are_rounded() {
    assert_eq!(fmt_ms(None), "-");
    assert_eq!(fmt_ms(Some(ms(1.4))), "1ms");
    assert_eq!(fmt_ms(Some(ms(0.5))), "0ms");
    assert_eq!(fmt_ms(Some(ms(1.5))), "2ms");
    assert_eq!(fmt_ms(Some(ms(2.5))), "2ms");
    assert_eq!(fmt_ms(Some(ms(2.51))), "3ms");
}

#[test]
fn shares() {
    assert_eq!(Percent::of(1, 3).to_shown(), 33);
    assert_eq!(Percent::of(2, 3).to_shown(), 67);
    assert_eq!(Percent::of(0, 0).to_shown(), 0);
    assert!(Percent::of(1, 10).is_at_least(10));
    assert!(!Percent::of(1, 11).is_at_least(10));
    assert!(Percent::of(1, 1000).is_positive());
    assert!(!Percent::of(0, 10).is_positive());
}

#[test]
fn path_quality_is_summed_up() {
    let ip = parse_ip("192.0.2.1").unwrap();
    let r = summarize(ip, 443, &[Some(ms(10.0)), None, Some(ms(20.0)), None]);
    assert_eq!(r.sent, 4);
    assert_eq!(r.lost, 2);
    assert_eq!(r.loss_pct.to_shown(), 50);
    assert_eq!(r.min_ms, Some(ms(10.0)));
    assert_eq!(r.avg_ms, Some(ms(15.0)));
    assert_eq!(r.max_ms, Some(ms(20.0)));
    assert_eq!(r.jitter_ms, Some(ms(5.0)));
    let r = summarize(ip, 443, &[None]);
    assert_eq!(r.avg_ms, None);
    assert_eq!(r.lost, 1);
}
