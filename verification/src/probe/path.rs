//! Path quality: loss, round-trip time and jitter of repeated connects.

pub mod laws;

use crate::addr::IpAddr;
use crate::measure;
use crate::measure::{Millis, Percent};
use crate::report::PathReport;
use vstd::prelude::*;

verus! {

/// The pause between two probes, in milliseconds.
pub const PROBE_PAUSE_MS: u64 = 100;

/// Minimum, mean, maximum and standard deviation of the values; nothing where there
/// are none.
pub open spec fn stats_are(
    values: Seq<Millis>,
    s: (Option<Millis>, Option<Millis>, Option<Millis>, Option<Millis>),
) -> bool {
    if values.len() == 0 {
        s.0 is None && s.1 is None && s.2 is None && s.3 is None
    } else {
        &&& s.0 is Some && measure::is_shortest(values, s.0->0)
        &&& s.1 is Some && measure::is_mean(values, s.1->0)
        &&& s.2 is Some && measure::is_longest(values, s.2->0)
        &&& s.3 is Some && measure::is_deviation(values, s.1->0, s.3->0)
    }
}

/// Minimum, mean, maximum and standard deviation.
pub fn stats(values: &[Millis]) -> (s: (
    Option<Millis>,
    Option<Millis>,
    Option<Millis>,
    Option<Millis>,
))
    ensures
        stats_are(values@, s),
{
    if values.len() == 0 {
        return (None, None, None, None);
    }
    let avg = measure::mean(values);
    (
        Some(measure::shortest(values)),
        Some(avg),
        Some(measure::longest(values)),
        Some(measure::deviation(values, avg)),
    )
}

/// The round-trip times of the probes that came back, in order.
pub open spec fn returned(probes: Seq<Option<Millis>>) -> Seq<Millis>
    decreases probes.len(),
{
    if probes.len() == 0 {
        Seq::empty()
    } else {
        match probes.last() {
            Some(ms) => returned(probes.drop_last()).push(ms),
            None => returned(probes.drop_last()),
        }
    }
}

proof fn lemma_returned_len(probes: Seq<Option<Millis>>)
    ensures
        returned(probes).len() <= probes.len(),
    decreases probes.len(),
{
    if probes.len() > 0 {
        lemma_returned_len(probes.drop_last());
    }
}

/// Sums up the probes: each is its round-trip time, or nothing where it was lost.
pub fn summarize(ip: IpAddr, port: u16, probes: &[Option<Millis>]) -> (r: PathReport)
    requires
        probes@.len() <= u32::MAX,
    ensures
        r.ip == ip,
        r.port == port,
        r.sent == probes@.len(),
        r.lost == probes@.len() - returned(probes@).len(),
        r.loss_pct == (Percent { part: r.lost, whole: r.sent }),
        stats_are(returned(probes@), (r.min_ms, r.avg_ms, r.max_ms, r.jitter_ms)),
{
    let mut rtts: Vec<Millis> = Vec::new();
    let mut i: usize = 0;
    while i < probes.len()
        invariant
            i <= probes.len(),
            rtts@ == returned(probes@.take(i as int)),
        decreases probes.len() - i,
    {
        assert(probes@.take(i + 1).drop_last() == probes@.take(i as int));
        if let Some(ms) = probes[i] {
            rtts.push(ms);
        }
        i = i + 1;
    }
    assert(probes@.take(probes@.len() as int) == probes@);
    proof {
        lemma_returned_len(probes@);
    }
    let sent: u32 = probes.len() as u32;
    let lost: u32 = (probes.len() - rtts.len()) as u32;
    let (min_ms, avg_ms, max_ms, jitter_ms) = stats(rtts.as_slice());
    PathReport {
        ip,
        port,
        sent,
        lost,
        loss_pct: Percent::of(lost, sent),
        min_ms,
        avg_ms,
        max_ms,
        jitter_ms,
    }
}

/// The mean lies between the minimum and the maximum.
pub proof fn law_mean_lies_between_the_extremes(
    values: Seq<Millis>,
    s: (Option<Millis>, Option<Millis>, Option<Millis>, Option<Millis>),
)
    requires
        stats_are(values, s),
        values.len() > 0,
    ensures
        s.0->0.nanos <= s.1->0.nanos <= s.2->0.nanos,
{
    let lo = s.0->0.nanos as int;
    let hi = s.2->0.nanos as int;
    let mid = s.1->0.nanos as int;
    let n = values.len() as int;
    lemma_total_bounds(values, lo, hi);
    assert(lo <= mid && mid <= hi) by (nonlinear_arith)
        requires
            n > 0,
            mid * n <= hi * n,
            lo * n < (mid + 1) * n,
    ;
}

proof fn lemma_total_bounds(values: Seq<Millis>, lo: int, hi: int)
    requires
        forall|i: int| 0 <= i < values.len() ==> lo <= (#[trigger] values[i]).nanos <= hi,
    ensures
        lo * values.len() <= measure::total(values) <= hi * values.len(),
    decreases values.len(),
{
    if values.len() > 0 {
        let front = values.drop_last();
        assert forall|i: int| 0 <= i < front.len() implies lo <= (
        #[trigger] front[i]).nanos <= hi by {
            assert(front[i] == values[i]);
        }
        lemma_total_bounds(front, lo, hi);
        let n = front.len() as int;
        assert(lo * (n + 1) == lo * n + lo && hi * (n + 1) == hi * n + hi) by (nonlinear_arith);
    }
}

} // verus!
