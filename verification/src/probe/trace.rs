//! Path trace: what the hops and the MTU probes show.

pub mod errqueue;
pub mod hops;
pub mod laws;
pub mod mtu;
pub mod replies;

use crate::addr::IpAddr;
use crate::i18n;
use crate::i18n::Lang;
use crate::probe::trace::hops::HopSearch;
use crate::probe::trace::mtu::MtuSearch;
use crate::report::{MtuProbe, MtuProbeOutcome, TraceData, TraceHop, TraceReport};
use vstd::prelude::*;

verus! {

/// The usual Ethernet MTU. A smaller path MTU means that the path narrows
/// somewhere.
pub const ETHERNET_MTU: u16 = 1500;

/// What the MTU probes show.
#[derive(Debug, Clone, Copy, PartialEq, Eq, Structural)]
pub struct MtuAnalysis {
    /// The path MTU: an ICMP hint, else the largest size that was delivered,
    /// else what the kernel knows.
    pub path_mtu: Option<u16>,
    /// The path narrows, yet larger packets vanish without any ICMP message.
    pub blackhole: bool,
}

/// The smaller of two optional sizes; a missing one does not count.
pub open spec fn smaller(a: Option<u16>, b: Option<u16>) -> Option<u16> {
    match (a, b) {
        (Some(x), Some(y)) => Some(if x <= y { x } else { y }),
        (Some(x), None) => Some(x),
        (None, y) => y,
    }
}

/// The larger of two optional sizes; a missing one does not count.
pub open spec fn larger(a: Option<u16>, b: Option<u16>) -> Option<u16> {
    match (a, b) {
        (Some(x), Some(y)) => Some(if x >= y { x } else { y }),
        (Some(x), None) => Some(x),
        (None, y) => y,
    }
}

/// The MTU that an ICMP message names, cut to 16 bits.
pub open spec fn hint(p: MtuProbe) -> Option<u16> {
    match p.outcome {
        MtuProbeOutcome::FragNeeded { mtu: Some(m) } => Some(
            if m <= 0xffff { m as u16 } else { 0xffffu16 },
        ),
        _ => None,
    }
}

pub open spec fn delivered_size(p: MtuProbe) -> Option<u16> {
    if p.outcome is Delivered {
        Some(p.size)
    } else {
        None
    }
}

pub open spec fn silent_size(p: MtuProbe) -> Option<u16> {
    if p.outcome is Silent {
        Some(p.size)
    } else {
        None
    }
}

/// The smallest MTU that an ICMP message named.
pub open spec fn least_hint(probes: Seq<MtuProbe>) -> Option<u16>
    decreases probes.len(),
{
    if probes.len() == 0 {
        None
    } else {
        smaller(least_hint(probes.drop_last()), hint(probes.last()))
    }
}

/// The largest size that reached the destination.
pub open spec fn most_delivered(probes: Seq<MtuProbe>) -> Option<u16>
    decreases probes.len(),
{
    if probes.len() == 0 {
        None
    } else {
        larger(most_delivered(probes.drop_last()), delivered_size(probes.last()))
    }
}

/// The smallest size that vanished.
pub open spec fn least_silent(probes: Seq<MtuProbe>) -> Option<u16>
    decreases probes.len(),
{
    if probes.len() == 0 {
        None
    } else {
        smaller(least_silent(probes.drop_last()), silent_size(probes.last()))
    }
}

/// Some probe was answered by an ICMP fragmentation-needed message.
pub open spec fn frag_seen(probes: Seq<MtuProbe>) -> bool {
    exists|i: int| 0 <= i < probes.len() && (#[trigger] probes[i]).outcome is FragNeeded
}

pub open spec fn path_mtu(kernel_mtu: Option<u16>, probes: Seq<MtuProbe>) -> Option<u16> {
    match (least_hint(probes), most_delivered(probes)) {
        (Some(m), _) => Some(m),
        (None, Some(m)) => Some(m),
        (None, None) => kernel_mtu,
    }
}

/// No ICMP message was seen, the path MTU is below the Ethernet MTU, and even the
/// smallest vanished packet was larger than the path MTU.
pub open spec fn blackhole(kernel_mtu: Option<u16>, probes: Seq<MtuProbe>) -> bool {
    &&& !frag_seen(probes)
    &&& path_mtu(kernel_mtu, probes) matches Some(m) && m < ETHERNET_MTU && (least_silent(
        probes,
    ) matches Some(s) && s > m)
}

fn min_size(a: Option<u16>, b: u16) -> (r: Option<u16>)
    ensures
        r == smaller(a, Some(b)),
{
    match a {
        Some(x) => if x <= b {
            Some(x)
        } else {
            Some(b)
        },
        None => Some(b),
    }
}

fn max_size(a: Option<u16>, b: u16) -> (r: Option<u16>)
    ensures
        r == larger(a, Some(b)),
{
    match a {
        Some(x) => if x >= b {
            Some(x)
        } else {
            Some(b)
        },
        None => Some(b),
    }
}

/// Finds the path MTU and the signs of a path MTU black hole.
pub fn analyze_mtu(kernel_mtu: Option<u16>, probes: &[MtuProbe]) -> (a: MtuAnalysis)
    ensures
        a.path_mtu == path_mtu(kernel_mtu, probes@),
        a.blackhole == blackhole(kernel_mtu, probes@),
{
    let mut seen = false;
    let mut hinted: Option<u16> = None;
    let mut delivered: Option<u16> = None;
    let mut silent: Option<u16> = None;
    let mut i: usize = 0;
    while i < probes.len()
        invariant
            i <= probes.len(),
            seen == frag_seen(probes@.take(i as int)),
            hinted == least_hint(probes@.take(i as int)),
            delivered == most_delivered(probes@.take(i as int)),
            silent == least_silent(probes@.take(i as int)),
        decreases probes.len() - i,
    {
        let p = probes[i];
        let ghost before = probes@.take(i as int);
        let ghost now = probes@.take(i + 1);
        assert(now.drop_last() == before);
        assert(now.last() == p);
        assert(frag_seen(now) == (frag_seen(before) || p.outcome is FragNeeded)) by {
            if frag_seen(before) {
                let j = choose|j: int| 0 <= j < before.len() && (#[trigger] before[j]).outcome is FragNeeded;
                assert(now[j] == before[j]);
            }
            if p.outcome is FragNeeded {
                assert(now[i as int] == p);
            }
            if frag_seen(now) && !(p.outcome is FragNeeded) {
                let j = choose|j: int| 0 <= j < now.len() && (#[trigger] now[j]).outcome is FragNeeded;
                assert(before[j] == now[j]);
            }
        }
        match p.outcome {
            MtuProbeOutcome::FragNeeded { mtu } => {
                seen = true;
                if let Some(m) = mtu {
                    let m16: u16 = if m <= 0xffff {
                        m as u16
                    } else {
                        0xffff
                    };
                    hinted = min_size(hinted, m16);
                }
            },
            MtuProbeOutcome::Delivered => {
                delivered = max_size(delivered, p.size);
            },
            MtuProbeOutcome::Silent => {
                silent = min_size(silent, p.size);
            },
            MtuProbeOutcome::LocalError => {},
        }
        i = i + 1;
    }
    assert(probes@.take(probes@.len() as int) == probes@);
    let mtu: Option<u16> = match hinted {
        Some(m) => Some(m),
        None => match delivered {
            Some(m) => Some(m),
            None => kernel_mtu,
        },
    };
    let hole = match (mtu, silent) {
        (Some(m), Some(s)) => !seen && m < ETHERNET_MTU && s > m,
        _ => false,
    };
    MtuAnalysis { path_mtu: mtu, blackhole: hole }
}

/// Where a path fails, judged by the last hop that replied.
#[derive(Debug, Clone, Copy, PartialEq, Eq, Structural)]
pub enum HopZone {
    /// Hops 1 and 2: the home network.
    Home,
    /// Early hops: most likely the provider's network.
    Isp,
    /// Deep in the path: most likely the far side.
    FarSide,
}

/// The last hop that counts as the home network.
pub const HOME_MAX_HOP: u8 = 2;

/// The last hop that counts as the provider's network.
pub const ISP_MAX_HOP: u8 = 6;

/// Where the replies end.
#[derive(Debug, Clone, Copy, PartialEq, Eq, Structural)]
pub struct HopLocalization {
    /// The address of the last hop that replied.
    pub last_hop: IpAddr,
    /// Its TTL.
    pub last_index: u8,
    /// The length of the path: the TTL of the destination where it was reached,
    /// else the largest TTL that was tried.
    pub path_len_estimate: u8,
    pub zone: HopZone,
}

pub open spec fn zone_of(index: u8) -> HopZone {
    if index <= HOME_MAX_HOP {
        HopZone::Home
    } else if index <= ISP_MAX_HOP {
        HopZone::Isp
    } else {
        HopZone::FarSide
    }
}

/// The last hop of the list that has an address.
pub open spec fn last_reply(hops: Seq<TraceHop>) -> Option<TraceHop>
    decreases hops.len(),
{
    if hops.len() == 0 {
        None
    } else if hops.last().addr is Some {
        Some(hops.last())
    } else {
        last_reply(hops.drop_last())
    }
}

/// The largest TTL of the list.
pub open spec fn max_index(hops: Seq<TraceHop>) -> u8
    decreases hops.len(),
{
    if hops.len() == 0 {
        0
    } else {
        let m = max_index(hops.drop_last());
        if hops.last().index >= m {
            hops.last().index
        } else {
            m
        }
    }
}

/// What the hops say of where the path ends.
pub open spec fn localized(hops: Seq<TraceHop>, dest_reached: bool) -> Option<HopLocalization> {
    match last_reply(hops) {
        Some(hop) => Some(
            HopLocalization {
                last_hop: hop.addr->0,
                last_index: hop.index,
                path_len_estimate: if dest_reached {
                    hop.index
                } else {
                    max_index(hops)
                },
                zone: zone_of(hop.index),
            },
        ),
        None => None,
    }
}

/// Finds how far the replies reach; `None` where no hop replied.
pub fn localize_failure(hops: &[TraceHop], dest_reached: bool) -> (r: Option<HopLocalization>)
    ensures
        r == localized(hops@, dest_reached),
{
    let mut n: usize = hops.len();
    let mut top: u8 = 0;
    let mut i: usize = 0;
    while i < hops.len()
        invariant
            i <= hops.len(),
            top == max_index(hops@.take(i as int)),
        decreases hops.len() - i,
    {
        assert(hops@.take(i + 1).drop_last() == hops@.take(i as int));
        if hops[i].index >= top {
            top = hops[i].index;
        }
        i = i + 1;
    }
    assert(hops@.take(hops@.len() as int) == hops@);
    while n > 0
        invariant
            n <= hops.len(),
            top == max_index(hops@),
            last_reply(hops@.take(n as int)) == last_reply(hops@),
        decreases n,
    {
        let hop = hops[n - 1];
        assert(hops@.take(n as int).last() == hop);
        assert(hops@.take(n as int).drop_last() == hops@.take(n - 1));
        if let Some(ip) = hop.addr {
            let zone = if hop.index <= HOME_MAX_HOP {
                HopZone::Home
            } else if hop.index <= ISP_MAX_HOP {
                HopZone::Isp
            } else {
                HopZone::FarSide
            };
            return Some(
                HopLocalization {
                    last_hop: ip,
                    last_index: hop.index,
                    path_len_estimate: if dest_reached {
                        hop.index
                    } else {
                        top
                    },
                    zone,
                },
            );
        }
        n = n - 1;
    }
    None
}

// ── What the analysis promises ──────────────────────────────────────────

pub proof fn lemma_sizes(probes: Seq<MtuProbe>)
    ensures
        forall|i: int|
            0 <= i < probes.len() && (#[trigger] probes[i]).outcome is Silent ==> (least_silent(
                probes,
            ) matches Some(s) && s <= probes[i].size),
        forall|i: int|
            0 <= i < probes.len() && (#[trigger] probes[i]).outcome is Delivered ==> (
            most_delivered(probes) matches Some(d) && d >= probes[i].size),
        least_silent(probes) matches Some(s) ==> exists|i: int|
            0 <= i < probes.len() && (#[trigger] probes[i]).outcome is Silent && probes[i].size == s,
        !frag_seen(probes) ==> least_hint(probes) is None,
    decreases probes.len(),
{
    if probes.len() > 0 {
        let init = probes.drop_last();
        lemma_sizes(init);
        assert forall|i: int|
            0 <= i < probes.len() && (#[trigger] probes[i]).outcome is Silent implies (least_silent(
            probes,
        ) matches Some(s) && s <= probes[i].size) by {
            if i < init.len() {
                assert(init[i] == probes[i]);
            }
        }
        assert forall|i: int|
            0 <= i < probes.len() && (#[trigger] probes[i]).outcome is Delivered implies (
        most_delivered(probes) matches Some(d) && d >= probes[i].size) by {
            if i < init.len() {
                assert(init[i] == probes[i]);
            }
        }
        if least_silent(probes) is Some {
            let s = least_silent(probes)->0;
            if silent_size(probes.last()) == Some(s) {
                assert(probes[probes.len() - 1].size == s);
            } else {
                let i = choose|i: int|
                    0 <= i < init.len() && (#[trigger] init[i]).outcome is Silent && init[i].size == s;
                assert(probes[i] == init[i]);
            }
        }
        if !frag_seen(probes) {
            if frag_seen(init) {
                let i = choose|i: int| 0 <= i < init.len() && (#[trigger] init[i]).outcome is FragNeeded;
                assert(probes[i].outcome is FragNeeded);
            }
            assert(!(probes[probes.len() - 1].outcome is FragNeeded));
        }
    }
}

/// A black hole is reported only where no ICMP fragmentation-needed message was
/// seen, the path MTU is below the Ethernet MTU, some packet above the path MTU
/// vanished, and every packet that vanished was larger than the path MTU and
/// larger than every packet that was delivered.
pub proof fn law_blackhole_evidence(kernel_mtu: Option<u16>, probes: Seq<MtuProbe>)
    requires
        blackhole(kernel_mtu, probes),
    ensures
        !frag_seen(probes),
        path_mtu(kernel_mtu, probes) matches Some(m) && m < ETHERNET_MTU,
        exists|i: int| 0 <= i < probes.len() && (#[trigger] probes[i]).outcome is Silent,
        forall|i: int|
            0 <= i < probes.len() && (#[trigger] probes[i]).outcome is Silent ==> probes[i].size
                > path_mtu(kernel_mtu, probes)->0,
        forall|i: int, j: int|
            0 <= i < probes.len() && 0 <= j < probes.len() && (#[trigger] probes[i]).outcome is Silent
                && (#[trigger] probes[j]).outcome is Delivered ==> probes[i].size > probes[j].size,
{
    lemma_sizes(probes);
}

/// Wherever an ICMP fragmentation-needed message was seen, path MTU discovery
/// works and no black hole is reported.
pub proof fn law_frag_needed_means_no_blackhole(kernel_mtu: Option<u16>, probes: Seq<MtuProbe>, i: int)
    requires
        0 <= i < probes.len(),
        probes[i].outcome is FragNeeded,
    ensures
        !blackhole(kernel_mtu, probes),
{
}

/// The last hop with an address is the one after which none has one.
pub proof fn lemma_last_reply(hops: Seq<TraceHop>, k: int)
    requires
        0 <= k < hops.len(),
        hops[k].addr is Some,
        forall|j: int| k < j < hops.len() ==> (#[trigger] hops[j]).addr is None,
    ensures
        last_reply(hops) == Some(hops[k]),
    decreases hops.len(),
{
    if k < hops.len() - 1 {
        let init = hops.drop_last();
        assert(hops[hops.len() - 1].addr is None);
        assert forall|j: int| k < j < init.len() implies (#[trigger] init[j]).addr is None by {
            assert(init[j] == hops[j]);
        }
        lemma_last_reply(init, k);
    }
}

/// The largest TTL is that of a hop, and no hop has a larger one.
pub proof fn lemma_max_index(hops: Seq<TraceHop>)
    ensures
        forall|j: int| 0 <= j < hops.len() ==> (#[trigger] hops[j]).index <= max_index(hops),
        hops.len() > 0 ==> exists|j: int|
            0 <= j < hops.len() && (#[trigger] hops[j]).index == max_index(hops),
    decreases hops.len(),
{
    if hops.len() > 0 {
        let init = hops.drop_last();
        lemma_max_index(init);
        assert forall|j: int| 0 <= j < hops.len() implies (#[trigger] hops[j]).index <= max_index(
            hops,
        ) by {
            if j < init.len() {
                assert(init[j] == hops[j]);
            }
        }
        if max_index(hops) == hops.last().index {
            assert(hops[hops.len() - 1].index == max_index(hops));
        } else {
            let j = choose|j: int| 0 <= j < init.len() && (#[trigger] init[j]).index == max_index(init);
            assert(hops[j] == init[j]);
        }
    }
}

/// A failure is localized exactly where some hop replied; then the hop it names
/// replied, and no later hop did.
pub proof fn law_last_reply(hops: Seq<TraceHop>, dest_reached: bool)
    ensures
        localized(hops, dest_reached) is None <==> forall|i: int|
            0 <= i < hops.len() ==> (#[trigger] hops[i]).addr is None,
        localized(hops, dest_reached) matches Some(l) ==> exists|k: int|
            0 <= k < hops.len() && (#[trigger] hops[k]).addr == Some(l.last_hop) && hops[k].index
                == l.last_index && forall|j: int|
                k < j < hops.len() ==> (#[trigger] hops[j]).addr is None,
    decreases hops.len(),
{
    if hops.len() > 0 {
        let init = hops.drop_last();
        if hops.last().addr is Some {
            assert(hops[hops.len() - 1].addr is Some);
        } else {
            law_last_reply(init, dest_reached);
            assert(forall|i: int| 0 <= i < init.len() ==> init[i] == #[trigger] hops[i]);
            if last_reply(hops) is Some {
                let l = localized(init, dest_reached)->0;
                let k = choose|k: int|
                    0 <= k < init.len() && (#[trigger] init[k]).addr == Some(l.last_hop)
                        && init[k].index == l.last_index && forall|j: int|
                        k < j < init.len() ==> (#[trigger] init[j]).addr is None;
                assert(hops[k].addr == Some(l.last_hop));
                assert forall|j: int| k < j < hops.len() implies (#[trigger] hops[j]).addr is None by {
                    if j < init.len() {
                        assert(init[j].addr is None);
                    }
                }
            } else {
                assert forall|i: int| 0 <= i < hops.len() implies (#[trigger] hops[i]).addr is None by {
                    if i < init.len() {
                        assert(init[i].addr is None);
                    }
                }
            }
        }
    }
}

// ── The result of the stage ─────────────────────────────────────────────

/// How long the whole trace may take, in seconds.
pub const TRACE_TIMEOUT_SECS: u64 = 75;

/// Gathers what the trace measured. The MTU probe may be missing: the hops are
/// reported all the same.
pub fn gather(search: HopSearch, mtu: Option<(MtuSearch, Option<u16>)>) -> (data: TraceData)
    ensures
        data.hops@ == search@.hops,
        data.dest_reached == search@.dest_reached,
        match mtu {
            Some((probe, kernel)) => data.mtu_probes@ == probe.done() && data.kernel_mtu == kernel,
            None => data.mtu_probes@.len() == 0 && data.kernel_mtu is None,
        },
{
    let (hops, dest_reached) = search.into_hops();
    match mtu {
        Some((probe, kernel_mtu)) => TraceData {
            hops,
            dest_reached,
            kernel_mtu,
            mtu_probes: probe.into_probes(),
        },
        None => TraceData { hops, dest_reached, kernel_mtu: None, mtu_probes: Vec::new() },
    }
}

/// How the trace ended.
pub enum TraceEnd {
    Done(TraceData),
    Failed(String),
    TimedOut,
}

/// Makes the result of the stage.
pub fn conclude(end: TraceEnd, lang: Lang) -> (r: TraceReport)
    ensures
        match end {
            TraceEnd::Done(data) => r == TraceReport::Ran(data),
            TraceEnd::Failed(e) => r == TraceReport::Failed(e),
            TraceEnd::TimedOut => r matches TraceReport::Failed(e) && e@
                == i18n::probe_trace_timeout_text(lang),
        },
{
    match end {
        TraceEnd::Done(data) => TraceReport::Ran(data),
        TraceEnd::Failed(e) => TraceReport::Failed(e),
        TraceEnd::TimedOut => TraceReport::Failed(i18n::probe_trace_timeout(lang)),
    }
}

} // verus!
