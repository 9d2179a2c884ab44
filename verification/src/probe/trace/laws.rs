//! What the trace concludes, told in terms of the probes and the hops alone.

use crate::probe::trace;
use crate::probe::trace::HopZone;
use crate::report::{MtuProbe, MtuProbeOutcome, TraceHop};
use vstd::prelude::*;

verus! {

// ── The path MTU ────────────────────────────────────────────────────────

/// An ICMP message on this probe named the MTU `m`, cut to 16 bits.
pub open spec fn names_mtu(p: MtuProbe, m: u16) -> bool {
    p.outcome matches MtuProbeOutcome::FragNeeded { mtu: Some(named) } && m == (if named > 65535 {
        65535
    } else {
        named as int
    })
}

proof fn lemma_least_hint(probes: Seq<MtuProbe>)
    ensures
        match trace::least_hint(probes) {
            Some(m) => {
                &&& exists|i: int| 0 <= i < probes.len() && names_mtu(#[trigger] probes[i], m)
                &&& forall|i: int, n: u16|
                    0 <= i < probes.len() && #[trigger] names_mtu(probes[i], n) ==> m <= n
            },
            None => forall|i: int, n: u16|
                0 <= i < probes.len() ==> !#[trigger] names_mtu(probes[i], n),
        },
    decreases probes.len(),
{
    if probes.len() > 0 {
        let init = probes.drop_last();
        lemma_least_hint(init);
        assert(forall|i: int| 0 <= i < init.len() ==> init[i] == #[trigger] probes[i]);
        assert forall|i: int, n: u16|
            0 <= i < init.len() implies names_mtu(init[i], n) == #[trigger] names_mtu(probes[i], n) by {}
        assert forall|n: u16| #[trigger] names_mtu(probes.last(), n) implies trace::hint(
            probes.last(),
        ) == Some(n) by {}
        match trace::least_hint(probes) {
            Some(m) => {
                if trace::hint(probes.last()) == Some(m) {
                    assert(names_mtu(probes[probes.len() - 1], m));
                } else {
                    let i = choose|i: int| 0 <= i < init.len() && names_mtu(#[trigger] init[i], m);
                    assert(names_mtu(probes[i], m));
                }
                assert forall|i: int, n: u16|
                    0 <= i < probes.len() && #[trigger] names_mtu(probes[i], n) implies m <= n by {
                    if i < init.len() {
                        assert(names_mtu(init[i], n));
                    } else {
                        assert(trace::hint(probes.last()) == Some(n));
                    }
                }
            },
            None => {
                assert forall|i: int, n: u16| 0 <= i < probes.len() implies !#[trigger] names_mtu(
                    probes[i],
                    n,
                ) by {
                    if i < init.len() {
                        assert(!names_mtu(init[i], n));
                    } else if names_mtu(probes.last(), n) {
                        assert(trace::hint(probes.last()) == Some(n));
                    }
                }
            },
        }
    }
}

proof fn lemma_most_delivered(probes: Seq<MtuProbe>)
    ensures
        match trace::most_delivered(probes) {
            Some(m) => {
                &&& exists|i: int|
                    0 <= i < probes.len() && (#[trigger] probes[i]).outcome is Delivered
                        && probes[i].size == m
                &&& forall|i: int|
                    0 <= i < probes.len() && (#[trigger] probes[i]).outcome is Delivered
                        ==> probes[i].size <= m
            },
            None => forall|i: int|
                0 <= i < probes.len() ==> !((#[trigger] probes[i]).outcome is Delivered),
        },
    decreases probes.len(),
{
    if probes.len() > 0 {
        let init = probes.drop_last();
        lemma_most_delivered(init);
        assert(forall|i: int| 0 <= i < init.len() ==> init[i] == #[trigger] probes[i]);
        assert(probes[probes.len() - 1] == probes.last());
        match trace::most_delivered(probes) {
            Some(m) => {
                if trace::delivered_size(probes.last()) != Some(m) {
                    let i = choose|i: int|
                        0 <= i < init.len() && (#[trigger] init[i]).outcome is Delivered
                            && init[i].size == m;
                    assert(probes[i].size == m);
                }
                assert forall|i: int|
                    0 <= i < probes.len() && (
                    #[trigger] probes[i]).outcome is Delivered implies probes[i].size <= m by {
                    if i < init.len() {
                        assert(init[i].outcome is Delivered);
                    }
                }
            },
            None => {
                assert forall|i: int| 0 <= i < probes.len() implies !((
                #[trigger] probes[i]).outcome is Delivered) by {
                    if i < init.len() {
                        assert(!(init[i].outcome is Delivered));
                    }
                }
            },
        }
    }
}

/// The path MTU is the smallest that an ICMP message named; without one, the largest
/// size that was delivered; without either, what the kernel knows.
pub proof fn law_path_mtu(kernel_mtu: Option<u16>, probes: Seq<MtuProbe>)
    ensures
        (exists|i: int, m: u16| 0 <= i < probes.len() && #[trigger] names_mtu(probes[i], m)) ==> (
        trace::path_mtu(kernel_mtu, probes) matches Some(m) && (exists|i: int|
            0 <= i < probes.len() && names_mtu(#[trigger] probes[i], m)) && (forall|i: int, n: u16|
            0 <= i < probes.len() && #[trigger] names_mtu(probes[i], n) ==> m <= n)),
        (forall|i: int, m: u16| 0 <= i < probes.len() ==> !#[trigger] names_mtu(probes[i], m)) && (
        exists|i: int| 0 <= i < probes.len() && (#[trigger] probes[i]).outcome is Delivered) ==> (
        trace::path_mtu(kernel_mtu, probes) matches Some(m) && (exists|i: int|
            0 <= i < probes.len() && (#[trigger] probes[i]).outcome is Delivered && probes[i].size
                == m) && (forall|i: int|
            0 <= i < probes.len() && (#[trigger] probes[i]).outcome is Delivered ==> probes[i].size
                <= m)),
        (forall|i: int, m: u16| 0 <= i < probes.len() ==> !#[trigger] names_mtu(probes[i], m)) && (
        forall|i: int| 0 <= i < probes.len() ==> !((#[trigger] probes[i]).outcome is Delivered))
            ==> trace::path_mtu(kernel_mtu, probes) == kernel_mtu,
{
    lemma_least_hint(probes);
    lemma_most_delivered(probes);
    if trace::least_hint(probes) is Some {
        let m = trace::least_hint(probes)->0;
        let i = choose|i: int| 0 <= i < probes.len() && names_mtu(#[trigger] probes[i], m);
        assert(names_mtu(probes[i], m));
    }
}

/// A black hole is reported exactly where no probe was answered by an ICMP
/// fragmentation-needed message, the path MTU is known and below 1500, some probe
/// vanished, and every probe that vanished was larger than the path MTU.
pub proof fn law_blackhole_signature(kernel_mtu: Option<u16>, probes: Seq<MtuProbe>)
    ensures
        trace::blackhole(kernel_mtu, probes) <==> {
            &&& forall|i: int|
                0 <= i < probes.len() ==> !((#[trigger] probes[i]).outcome is FragNeeded)
            &&& trace::path_mtu(kernel_mtu, probes) is Some
            &&& trace::path_mtu(kernel_mtu, probes)->0 < 1500
            &&& exists|i: int| 0 <= i < probes.len() && (#[trigger] probes[i]).outcome is Silent
            &&& forall|i: int|
                0 <= i < probes.len() && (#[trigger] probes[i]).outcome is Silent ==> probes[i].size
                    > trace::path_mtu(kernel_mtu, probes)->0
        },
{
    trace::lemma_sizes(probes);
}

// ── Where the path ends ─────────────────────────────────────────────────

/// Where the replies end: the last hop that replied, the zone of its number, and the
/// length of the path, which is its own number where the destination replied and the
/// largest number tried otherwise.
pub proof fn law_localization(hops: Seq<TraceHop>, dest_reached: bool, k: int)
    requires
        0 <= k < hops.len(),
        hops[k].addr is Some,
        forall|j: int| k < j < hops.len() ==> (#[trigger] hops[j]).addr is None,
    ensures
        ({
            let l = trace::localized(hops, dest_reached)->0;
            &&& trace::localized(hops, dest_reached) is Some
            &&& Some(l.last_hop) == hops[k].addr
            &&& l.last_index == hops[k].index
            &&& l.zone == if hops[k].index <= 2 {
                HopZone::Home
            } else if hops[k].index <= 6 {
                HopZone::Isp
            } else {
                HopZone::FarSide
            }
            &&& dest_reached ==> l.path_len_estimate == hops[k].index
            &&& !dest_reached ==> (forall|j: int|
                0 <= j < hops.len() ==> (#[trigger] hops[j]).index <= l.path_len_estimate) && (
            exists|j: int| 0 <= j < hops.len() && (#[trigger] hops[j]).index == l.path_len_estimate)
        }),
{
    trace::lemma_last_reply(hops, k);
    trace::lemma_max_index(hops);
}

} // verus!
