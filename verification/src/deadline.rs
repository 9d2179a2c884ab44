//! The deadline of a whole diagnosis. It is looked at between the stages; each
//! probe keeps to its own timeout.

pub mod laws;

use crate::clock::{Clock, Moment};
use crate::measure::Millis;
use vstd::prelude::*;

verus! {

/// A deadline: a clock, and how long it may run.
#[derive(Debug, Clone, Copy)]
pub struct Deadline {
    clock: Clock,
    allowance: u64,
}

/// So many units of `size` nanoseconds, or the longest time that fits.
pub open spec fn capped(count: u64, size: u64) -> u64 {
    if count * size > u64::MAX {
        u64::MAX
    } else {
        (count * size) as u64
    }
}

fn capped_product(count: u64, size: u64) -> (n: u64)
    ensures
        n == capped(count, size),
{
    proof {
        assert(0 <= count as int * size as int <= 0xffff_ffff_ffff_ffff * 0xffff_ffff_ffff_ffff)
            by (nonlinear_arith)
            requires
                count <= 0xffff_ffff_ffff_ffff,
                size <= 0xffff_ffff_ffff_ffff,
        ;
    }
    let n: u128 = count as u128 * size as u128;
    if n > 0xffff_ffff_ffff_ffff {
        0xffff_ffff_ffff_ffff
    } else {
        n as u64
    }
}

impl Deadline {
    /// How long the clock may run, in nanoseconds.
    pub closed spec fn allows(self) -> u64 {
        self.allowance
    }

    /// The deadline has passed when the clock shows this moment.
    pub open spec fn passed(self, now: Moment) -> bool {
        now.nanos >= self.allows()
    }

    /// The nanoseconds that are left when the clock shows this moment.
    pub open spec fn left(self, now: Moment) -> u64 {
        if self.passed(now) {
            0
        } else {
            (self.allows() - now.nanos) as u64
        }
    }

    /// A deadline so many seconds ahead, one at least.
    pub fn from_secs(secs: u64) -> (d: Self)
        ensures
            d.allows() == capped(if secs == 0 { 1 } else { secs }, 1_000_000_000),
    {
        let secs: u64 = if secs == 0 {
            1
        } else {
            secs
        };
        Deadline { clock: Clock::start(), allowance: capped_product(secs, 1_000_000_000) }
    }

    /// A deadline so many milliseconds ahead.
    pub fn from_millis(ms: u64) -> (d: Self)
        ensures
            d.allows() == capped(ms, 1_000_000),
    {
        Deadline { clock: Clock::start(), allowance: capped_product(ms, 1_000_000) }
    }

    /// A deadline that has passed.
    pub fn already_expired() -> (d: Self)
        ensures
            d.allows() == 0,
    {
        Deadline { clock: Clock::start(), allowance: 0 }
    }

    /// Whether the deadline has passed when the clock shows this moment.
    pub fn expired_at(&self, now: Moment) -> (r: bool)
        ensures
            r == self.passed(now),
    {
        now.nanos >= self.allowance
    }

    /// Whether the deadline has passed. Which moment the clock shows decides; a
    /// deadline without any time has always passed.
    pub fn expired(&self) -> (r: bool)
        ensures
            self.allows() == 0 ==> r,
    {
        self.expired_at(self.clock.now())
    }

    /// The time that is left when the clock shows this moment.
    pub fn remaining_at(&self, now: Moment) -> (left: Millis)
        ensures
            left.nanos == self.left(now),
    {
        if now.nanos >= self.allowance {
            Millis { nanos: 0 }
        } else {
            Millis { nanos: self.allowance - now.nanos }
        }
    }

    /// The time that is left. Which moment the clock shows decides; it is never
    /// more than the deadline allowed.
    pub fn remaining(&self) -> (left: Millis)
        ensures
            left.nanos <= self.allows(),
    {
        self.remaining_at(self.clock.now())
    }
}

/// Whether no further stage is to be started when the clock of the deadline shows
/// this moment: exactly where there is a deadline and it has passed.
pub fn should_stop_at(deadline: Option<&Deadline>, now: Moment) -> (r: bool)
    ensures
        r == (deadline is Some && deadline->0.passed(now)),
{
    match deadline {
        Some(d) => d.expired_at(now),
        None => false,
    }
}

/// Whether no further stage is to be started: never without a deadline, and always
/// where the deadline has no time. Else the moment that the clock shows decides.
pub fn should_stop(deadline: Option<&Deadline>) -> (r: bool)
    ensures
        deadline is None ==> !r,
        deadline is Some && deadline->0.allows() == 0 ==> r,
{
    match deadline {
        Some(d) => should_stop_at(deadline, d.clock.now()),
        None => false,
    }
}

/// A deadline has passed exactly when no time is left; once it has passed, it stays
/// so, and the time that is left never grows.
pub proof fn law_deadlines_only_come_nearer(d: Deadline, now: Moment, later: Moment)
    requires
        now.nanos <= later.nanos,
    ensures
        d.passed(now) <==> d.left(now) == 0,
        d.passed(now) ==> d.passed(later),
        d.left(later) <= d.left(now),
{
}

} // verus!
