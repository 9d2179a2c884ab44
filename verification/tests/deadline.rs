//! Deadlines.

use netblame::clock::Moment;
use netblame::deadline::{should_stop, should_stop_at, Deadline};
use netblame::measure::Millis;

#[test]
fn fresh_deadline_not_expired() {
    let d = Deadline::from_secs(5);
    assert!(!d.expired());
    assert!(d.remaining().nanos > Millis::from_ms(0).nanos);
}

#[test]
fn zero_secs_clamped_to_one() {
    let d = Deadline::from_secs(0);
    assert!(!d.expired());
}

#[test]
fn should_stop_none_is_always_false() {
    assert!(!should_stop(None));
}

#[test]
fn should_stop_true_after_expiry() {
    let d = Deadline::already_expired();
    assert!(should_stop(Some(&d)));
}

#[test]
fn already_expired_is_expired() {
    let d = Deadline::already_expired();
    assert!(d.expired());
    assert_eq!(d.remaining(), Millis::from_ms(0));
}

#[test]
fn deadline_passes_at_its_moment() {
    let d = Deadline::from_millis(50);
    assert!(!d.expired_at(Moment { nanos: 49_999_999 }));
    assert!(d.expired_at(Moment { nanos: 50_000_000 }));
    assert_eq!(
        d.remaining_at(Moment { nanos: 20_000_000 }),
        Millis::from_ms(30)
    );
    assert_eq!(
        d.remaining_at(Moment { nanos: 60_000_000 }),
        Millis::from_ms(0)
    );
}

#[test]
fn stopping_agrees_with_expiry_at_the_same_moment() {
    let d = Deadline::from_millis(50);
    for nanos in [0, 49_999_999, 50_000_000, u64::MAX] {
        let now = Moment { nanos };
        assert_eq!(should_stop_at(Some(&d), now), d.expired_at(now));
        assert!(!should_stop_at(None, now));
    }
    assert!(!should_stop_at(Some(&d), Moment { nanos: 49_999_999 }));
    assert!(should_stop_at(Some(&d), Moment { nanos: 50_000_000 }));
}

#[test]
fn endless_deadline_fits() {
    let d = Deadline::from_secs(u64::MAX);
    assert!(!d.expired());
    assert!(d.expired_at(Moment { nanos: u64::MAX }));
}

#[test]
fn clock_runs_forward() {
    let d = Deadline::from_secs(5);
    let first = d.remaining();
    let second = d.remaining();
    assert!(second.nanos <= first.nanos);
    assert!(first.nanos < 5_000_000_000);
}
