//! What the search for the hops promises, told by what is sent and what comes back.

use crate::addr::IpAddr;
use crate::measure::Millis;
use crate::probe::trace::errqueue::ErrEvent;
use crate::probe::trace::hops;
use crate::probe::trace::hops::{HopAction, HopState};
use crate::report::TraceHop;
use vstd::prelude::*;

verus! {

/// A search begins with the first hop: nothing was sent or found yet.
pub proof fn law_start(dest: IpAddr)
    ensures
        ({
            let s = hops::started(dest);
            &&& s.wf()
            &&& s.dest == dest
            &&& s.hops.len() == 0
            &&& !s.dest_reached
            &&& hops::wanted(s) == (HopAction::Send { ttl: 1, port: 33435 })
        }),
{
}

/// A datagram goes to port 33434 plus its TTL, so that a reply that names the port
/// names the TTL; no other port belongs to a TTL.
pub proof fn law_ports_name_the_ttl(s: HopState, port: u16, ttl: u8)
    requires
        s.wf(),
        hops::wanted(s) is Send,
    ensures
        hops::wanted(s)->ttl == s.hop.index,
        hops::wanted(s)->port == 33434 + s.hop.index,
        hops::ttl_of_port(Some(hops::wanted(s)->port)) == Some(s.hop.index),
        hops::ttl_of_port(Some(port)) == Some(ttl) <==> 1 <= ttl <= 30 && port == 33434 + ttl,
        hops::ttl_of_port(None) is None,
{
}

/// A router that replies is noted as the hop, with the time from the datagram to the
/// reply, and the next TTL is tried; the thirtieth is the last.
pub proof fn law_router_replies(s: HopState, ev: ErrEvent, t0: u64, t1: u64)
    requires
        s.wf(),
        hops::wanted(s) is Send,
        ev.kind is TimeExceeded,
        ev.dest_port == Some(hops::wanted(s)->port),
        ev.offender is Some,
        t0 <= t1,
    ensures
        ({
            let after = hops::after_reply(hops::after_send(s, t0, true), ev, t1);
            let found = TraceHop {
                index: s.hop.index,
                addr: ev.offender,
                rtt_ms: Some(Millis { nanos: (t1 - t0) as u64 }),
            };
            &&& after.wf()
            &&& after.hops == s.hops.push(found)
            &&& !after.dest_reached
            &&& after.silent == 0
            &&& s.hop.index < 30 ==> hops::wanted(after) == (HopAction::Send {
                ttl: (s.hop.index + 1) as u8,
                port: (33434 + s.hop.index + 1) as u16,
            })
            &&& s.hop.index == 30 ==> hops::wanted(after) is Finish
        }),
{
}

/// A closed port is a reply of the destination and ends the search. Another refusal
/// ends it too, and is one of the destination only where the destination sent it.
pub proof fn law_path_ends(s: HopState, ev: ErrEvent, t0: u64, t1: u64)
    requires
        s.wf(),
        hops::wanted(s) is Send,
        ev.kind is PortUnreachable || ev.kind is Unreachable,
        ev.dest_port == Some(hops::wanted(s)->port),
        t0 <= t1,
    ensures
        ({
            let after = hops::after_reply(hops::after_send(s, t0, true), ev, t1);
            let found = TraceHop {
                index: s.hop.index,
                addr: ev.offender,
                rtt_ms: Some(Millis { nanos: (t1 - t0) as u64 }),
            };
            &&& after.hops == s.hops.push(found)
            &&& hops::wanted(after) is Finish
            &&& after.dest_reached <==> ev.kind is PortUnreachable || ev.offender == Some(s.dest)
        }),
{
}

/// A hop that stays silent gets a second datagram, and is then left blank. Seven silent
/// hops in a row are passed over; the eighth ends the search, and so does the thirtieth
/// hop.
pub proof fn law_silent_hop(s: HopState, t0: u64, t1: u64)
    requires
        s.wf(),
        hops::wanted(s) is Send,
        s.probe == 0,
        s.hop.addr is None,
        s.hop.rtt_ms is None,
    ensures
        ({
            let once = hops::after_timeout(hops::after_send(s, t0, true));
            let twice = hops::after_timeout(hops::after_send(once, t1, true));
            &&& hops::wanted(hops::after_send(s, t0, true)) is Wait
            &&& hops::wanted(once) == hops::wanted(s)
            &&& once.hops == s.hops
            &&& twice.hops == s.hops.push(
                (TraceHop { index: s.hop.index, addr: None, rtt_ms: None }),
            )
            &&& twice.silent == s.silent + 1
            &&& !twice.dest_reached
            &&& hops::wanted(twice) is Finish <==> s.silent >= 7 || s.hop.index >= 30
            &&& s.silent < 7 && s.hop.index < 30 ==> hops::wanted(twice) == (HopAction::Send {
                ttl: (s.hop.index + 1) as u8,
                port: (33434 + s.hop.index + 1) as u16,
            }) && twice.probe == 0 && twice.hop.addr is None && twice.hop.rtt_ms is None
        }),
{
}

/// A datagram that could not be sent counts like one without a reply.
pub proof fn law_unsent_is_silent(s: HopState, at: u64)
    requires
        s.wf(),
        hops::wanted(s) is Send,
    ensures
        hops::after_send(s, at, false) == hops::after_timeout(hops::after_send(s, at, true)),
{
}

/// A late reply fills the blank of its own hop, with the time since that hop's
/// datagram, and changes nothing else: neither other hops nor the course of the search.
pub proof fn law_late_reply(s: HopState, ev: ErrEvent, at: u64, k: int, i: int)
    requires
        s.wf(),
        hops::wanted(s) is Wait,
        0 <= k < s.hops.len(),
        0 <= i < s.hops.len(),
        ev.dest_port == Some((33434 + k + 1) as u16),
    ensures
        ({
            let after = hops::after_reply(s, ev, at);
            &&& after.hops.len() == s.hops.len()
            &&& i != k ==> after.hops[i] == s.hops[i]
            &&& s.hops[k].addr is Some ==> after.hops[k] == s.hops[k]
            &&& s.hops[k].addr is None ==> after.hops[k].index == k + 1 && after.hops[k].addr
                == ev.offender
            &&& s.hops[k].addr is None && s.sent[k + 1] is Some && s.sent[k + 1]->0 <= at
                ==> after.hops[k].rtt_ms == Some(
                Millis { nanos: (at - s.sent[k + 1]->0) as u64 },
            )
            &&& after.hop == s.hop
            &&& after.probe == s.probe
            &&& after.silent == s.silent
            &&& after.dest_reached == s.dest_reached
            &&& hops::wanted(after) is Wait
        }),
{
    assert(s.hops[k].index == k + 1);
    assert(s.hops[i].index == i + 1);
}

/// A reply to another port, or to none, is not one to this search.
pub proof fn law_foreign_reply(s: HopState, ev: ErrEvent, at: u64)
    requires
        s.wf(),
        match ev.dest_port {
            Some(p) => p <= 33434 || p > 33464,
            None => true,
        },
    ensures
        hops::after_reply(s, ev, at) == s,
{
}

/// A reply that is neither of a router nor of the end of the path names the hop, and
/// the search goes on waiting.
pub proof fn law_other_reply(s: HopState, ev: ErrEvent, at: u64)
    requires
        s.wf(),
        hops::wanted(s) is Wait,
        ev.dest_port == Some((33434 + s.hop.index) as u16),
        ev.kind is FragNeeded || ev.kind is LocalEmsgsize || ev.kind is Other,
    ensures
        ({
            let after = hops::after_reply(s, ev, at);
            &&& hops::wanted(after) is Wait
            &&& after.hop.addr == ev.offender
            &&& after.hop.index == s.hop.index
            &&& after.hops == s.hops
            &&& after.probe == s.probe
        }),
{
}

/// When a search is over, nothing changes any more.
pub proof fn law_over_is_over(s: HopState, ev: ErrEvent, at: u64, ok: bool)
    requires
        hops::wanted(s) is Finish,
    ensures
        hops::after_reply(s, ev, at) == s,
        hops::after_send(s, at, ok) == s,
        hops::after_timeout(s) == s,
{
}

} // verus!
