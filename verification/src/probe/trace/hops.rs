//! The search for the hops of a path: which datagram to send next, and what each
//! reply means. Whoever drives the search sends, waits and reports back.

pub mod laws;

use crate::addr::IpAddr;
use crate::measure::Millis;
use crate::probe::trace::errqueue::{ErrEvent, ErrKind};
use crate::report::TraceHop;
use vstd::prelude::*;

verus! {

/// The customary port of a UDP trace; the TTL is added to it, so that a reply
/// names the datagram that it answers.
pub const BASE_PORT: u16 = 33434;

/// The largest TTL that is tried.
pub const MAX_HOPS: u8 = 30;

pub const PROBES_PER_HOP: u32 = 2;

/// How long to wait for a reply, in milliseconds.
pub const PROBE_TIMEOUT_MS: u64 = 1000;

/// The search ends after so many silent hops in a row.
pub const MAX_CONSECUTIVE_SILENT: u32 = 8;

/// What the search waits for.
#[derive(Debug, Clone, Copy, PartialEq, Eq, Structural)]
pub enum HopPhase {
    /// The next datagram is to be sent.
    Sending,
    /// A datagram is under way.
    Waiting,
    Over,
}

/// What is to be done next.
#[derive(Debug, Clone, Copy, PartialEq, Eq, Structural)]
pub enum HopAction {
    /// Send a datagram with this TTL to this port.
    Send { ttl: u8, port: u16 },
    /// Wait for a reply, until the time for the datagram is over.
    Wait,
    Finish,
}

/// The state of the search.
pub struct HopState {
    pub dest: IpAddr,
    /// The hops that are done.
    pub hops: Seq<TraceHop>,
    pub dest_reached: bool,
    /// When the last datagram of each TTL was sent, in nanoseconds.
    pub sent: Seq<Option<u64>>,
    /// The hop that is being probed, or was probed last.
    pub hop: TraceHop,
    /// How many datagrams of the hop are done.
    pub probe: u32,
    /// How many hops in a row were silent.
    pub silent: u32,
    pub phase: HopPhase,
}

impl HopState {
    /// Hops are numbered from 1 without gaps, the limits hold, and the search ends
    /// with the destination.
    pub open spec fn wf(self) -> bool {
        &&& 1 <= self.hop.index <= MAX_HOPS
        &&& self.hops.len() == if self.phase is Over {
            self.hop.index as int
        } else {
            self.hop.index - 1
        }
        &&& forall|i: int| 0 <= i < self.hops.len() ==> (#[trigger] self.hops[i]).index == i + 1
        &&& self.sent.len() == MAX_HOPS + 1
        &&& self.probe < PROBES_PER_HOP
        &&& self.silent <= MAX_CONSECUTIVE_SILENT
        &&& !(self.phase is Over) ==> self.silent < MAX_CONSECUTIVE_SILENT
        &&& self.dest_reached ==> self.phase is Over
    }
}

pub open spec fn fresh_hop(index: u8) -> TraceHop {
    TraceHop { index, addr: None, rtt_ms: None }
}

pub open spec fn started(dest: IpAddr) -> HopState {
    HopState {
        dest,
        hops: Seq::empty(),
        dest_reached: false,
        sent: Seq::new((MAX_HOPS + 1) as nat, |i: int| None),
        hop: fresh_hop(1),
        probe: 0,
        silent: 0,
        phase: HopPhase::Sending,
    }
}

/// The hop is done: the search goes on with the next one, unless the path ends
/// here, too many hops were silent, or this was the last hop.
pub open spec fn closed(s: HopState, terminal: bool) -> HopState {
    let silent: u32 = if s.hop.addr is None {
        (s.silent + 1) as u32
    } else {
        0
    };
    let over = terminal || silent >= MAX_CONSECUTIVE_SILENT || s.hop.index == MAX_HOPS;
    HopState {
        hops: s.hops.push(s.hop),
        hop: if over {
            s.hop
        } else {
            fresh_hop((s.hop.index + 1) as u8)
        },
        probe: 0,
        silent,
        phase: if over {
            HopPhase::Over
        } else {
            HopPhase::Sending
        },
        ..s
    }
}

/// A datagram of the hop is done without a reply that settles the hop.
pub open spec fn probe_over(s: HopState) -> HopState {
    if s.probe + 1 < PROBES_PER_HOP {
        HopState { probe: (s.probe + 1) as u32, phase: HopPhase::Sending, ..s }
    } else {
        closed(s, false)
    }
}

/// The datagram was handed to the network at the time `at`, or could not be sent.
pub open spec fn after_send(s: HopState, at: u64, ok: bool) -> HopState {
    if s.phase is Sending {
        let t = HopState { sent: s.sent.update(s.hop.index as int, Some(at)), ..s };
        if ok {
            HopState { phase: HopPhase::Waiting, ..t }
        } else {
            probe_over(t)
        }
    } else {
        s
    }
}

/// The time for the datagram is over.
pub open spec fn after_timeout(s: HopState) -> HopState {
    if s.phase is Waiting {
        probe_over(s)
    } else {
        s
    }
}

/// The TTL of the datagram that was sent to a port.
pub open spec fn ttl_of_port(port: Option<u16>) -> Option<u8> {
    match port {
        Some(p) => if BASE_PORT < p <= BASE_PORT + MAX_HOPS {
            Some((p - BASE_PORT) as u8)
        } else {
            None
        },
        None => None,
    }
}

/// The time from the sending of the datagram with that TTL to `at`.
pub open spec fn rtt(s: HopState, ttl: u8, at: u64) -> Option<Millis> {
    match s.sent[ttl as int] {
        Some(t) => Some(Millis { nanos: if at >= t { (at - t) as u64 } else { 0 } }),
        None => None,
    }
}

/// The hops with a late reply: it fills a blank and changes nothing else.
pub open spec fn filled(hops: Seq<TraceHop>, late: TraceHop) -> Seq<TraceHop> {
    Seq::new(
        hops.len(),
        |i: int|
            if hops[i].index == late.index && hops[i].addr is None {
                late
            } else {
                hops[i]
            },
    )
}

/// A reply arrived at the time `at`. One that answers no datagram of this search
/// is ignored; one that answers an earlier hop fills that hop's blank; one for the
/// hop at hand settles it.
pub open spec fn after_reply(s: HopState, ev: ErrEvent, at: u64) -> HopState {
    match ttl_of_port(ev.dest_port) {
        Some(ttl) => if !(s.phase is Waiting) {
            s
        } else {
            let seen = TraceHop { index: ttl, addr: ev.offender, rtt_ms: rtt(s, ttl, at) };
            if ttl == s.hop.index {
                let t = HopState { hop: seen, ..s };
                match ev.kind {
                    ErrKind::TimeExceeded => closed(t, false),
                    ErrKind::PortUnreachable => closed(HopState { dest_reached: true, ..t }, true),
                    ErrKind::Unreachable => closed(
                        HopState { dest_reached: ev.offender == Some(s.dest), ..t },
                        true,
                    ),
                    _ => t,
                }
            } else {
                HopState { hops: filled(s.hops, seen), ..s }
            }
        },
        None => s,
    }
}

pub open spec fn wanted(s: HopState) -> HopAction {
    match s.phase {
        HopPhase::Sending => HopAction::Send {
            ttl: s.hop.index,
            port: (BASE_PORT + s.hop.index) as u16,
        },
        HopPhase::Waiting => HopAction::Wait,
        HopPhase::Over => HopAction::Finish,
    }
}

/// A search for the hops of a path.
pub struct HopSearch {
    dest: IpAddr,
    hops: Vec<TraceHop>,
    dest_reached: bool,
    sent: Vec<Option<u64>>,
    hop: TraceHop,
    probe: u32,
    silent: u32,
    phase: HopPhase,
}

impl View for HopSearch {
    type V = HopState;

    closed spec fn view(&self) -> HopState {
        HopState {
            dest: self.dest,
            hops: self.hops@,
            dest_reached: self.dest_reached,
            sent: self.sent@,
            hop: self.hop,
            probe: self.probe,
            silent: self.silent,
            phase: self.phase,
        }
    }
}

impl HopSearch {
    /// Starts with the first hop.
    pub fn new(dest: IpAddr) -> (search: Self)
        ensures
            search@ == started(dest),
            search@.wf(),
    {
        let mut sent: Vec<Option<u64>> = Vec::new();
        let mut i: u8 = 0;
        while i <= MAX_HOPS
            invariant
                i <= MAX_HOPS + 1,
                sent@.len() == i,
                forall|j: int| 0 <= j < i ==> (#[trigger] sent@[j]) is None,
            decreases MAX_HOPS + 1 - i,
        {
            sent.push(None);
            i = i + 1;
        }
        let search = HopSearch {
            dest,
            hops: Vec::new(),
            dest_reached: false,
            sent,
            hop: TraceHop { index: 1, addr: None, rtt_ms: None },
            probe: 0,
            silent: 0,
            phase: HopPhase::Sending,
        };
        assert(search@.sent =~= started(dest).sent);
        assert(search@.hops =~= started(dest).hops);
        search
    }

    /// What is to be done next.
    pub fn action(&self) -> (a: HopAction)
        requires
            self@.wf(),
        ensures
            a == wanted(self@),
    {
        match self.phase {
            HopPhase::Sending => HopAction::Send {
                ttl: self.hop.index,
                port: BASE_PORT + self.hop.index as u16,
            },
            HopPhase::Waiting => HopAction::Wait,
            HopPhase::Over => HopAction::Finish,
        }
    }

    fn close(&mut self, terminal: bool)
        requires
            1 <= old(self)@.hop.index <= MAX_HOPS,
            old(self)@.silent < MAX_CONSECUTIVE_SILENT,
        ensures
            final(self)@ == closed(old(self)@, terminal),
    {
        self.hops.push(self.hop);
        self.probe = 0;
        if self.hop.addr.is_none() {
            self.silent = self.silent + 1;
        } else {
            self.silent = 0;
        }
        if terminal || self.silent >= MAX_CONSECUTIVE_SILENT || self.hop.index == MAX_HOPS {
            self.phase = HopPhase::Over;
        } else {
            self.phase = HopPhase::Sending;
            self.hop = TraceHop { index: self.hop.index + 1, addr: None, rtt_ms: None };
        }
    }

    fn end_probe(&mut self)
        requires
            old(self)@.wf(),
            !(old(self)@.phase is Over),
        ensures
            final(self)@ == probe_over(old(self)@),
    {
        if self.probe + 1 < PROBES_PER_HOP {
            self.probe = self.probe + 1;
            self.phase = HopPhase::Sending;
        } else {
            self.close(false);
        }
    }

    /// Takes note that the datagram was sent at the time `at`, or could not be sent.
    pub fn sent(&mut self, at: u64, ok: bool)
        requires
            old(self)@.wf(),
        ensures
            final(self)@ == after_send(old(self)@, at, ok),
            final(self)@.wf(),
    {
        if let HopPhase::Sending = self.phase {
            self.sent.set(self.hop.index as usize, Some(at));
            if ok {
                self.phase = HopPhase::Waiting;
            } else {
                self.end_probe();
            }
        }
    }

    /// Takes note that the time for the datagram is over.
    pub fn timed_out(&mut self)
        requires
            old(self)@.wf(),
        ensures
            final(self)@ == after_timeout(old(self)@),
            final(self)@.wf(),
    {
        if let HopPhase::Waiting = self.phase {
            self.end_probe();
        }
    }

    fn fill(&mut self, late: TraceHop)
        requires
            old(self)@.wf(),
        ensures
            final(self)@ == (HopState { hops: filled(old(self)@.hops, late), ..old(self)@ }),
    {
        let mut i: usize = 0;
        let ghost before = self@;
        while i < self.hops.len()
            invariant
                before == old(self)@,
                self@ == (HopState { hops: self@.hops, ..before }),
                i <= self.hops@.len() == before.hops.len(),
                forall|j: int| 0 <= j < i ==> self@.hops[j] == filled(before.hops, late)[j],
                forall|j: int| i <= j < before.hops.len() ==> self@.hops[j] == before.hops[j],
            decreases self.hops@.len() - i,
        {
            let h = self.hops[i];
            if h.index == late.index && h.addr.is_none() {
                self.hops.set(i, late);
            }
            i = i + 1;
        }
        assert(self@.hops =~= filled(before.hops, late));
    }

    /// Takes note of a reply that arrived at the time `at`.
    pub fn reply(&mut self, ev: &ErrEvent, at: u64)
        requires
            old(self)@.wf(),
        ensures
            final(self)@ == after_reply(old(self)@, *ev, at),
            final(self)@.wf(),
    {
        let ttl: u8 = match ev.dest_port {
            Some(p) => if BASE_PORT < p && p <= BASE_PORT + MAX_HOPS as u16 {
                (p - BASE_PORT) as u8
            } else {
                return;
            },
            None => {
                return;
            },
        };
        match self.phase {
            HopPhase::Waiting => {},
            _ => {
                return;
            },
        }
        let rtt_ms = match self.sent[ttl as usize] {
            Some(t) => Some(Millis { nanos: if at >= t { at - t } else { 0 } }),
            None => None,
        };
        let seen = TraceHop { index: ttl, addr: ev.offender, rtt_ms };
        if ttl != self.hop.index {
            self.fill(seen);
            return;
        }
        self.hop = seen;
        match ev.kind {
            ErrKind::TimeExceeded => {
                self.close(false);
            },
            ErrKind::PortUnreachable => {
                self.dest_reached = true;
                self.close(true);
            },
            ErrKind::Unreachable => {
                self.dest_reached = match ev.offender {
                    Some(ip) => ip == self.dest,
                    None => false,
                };
                self.close(true);
            },
            _ => {},
        }
    }

    /// The hops that are done, and whether the destination replied.
    pub fn into_hops(self) -> (r: (Vec<TraceHop>, bool))
        ensures
            r.0@ == self@.hops,
            r.1 == self@.dest_reached,
    {
        (self.hops, self.dest_reached)
    }
}

// ── What holds of every search ──────────────────────────────────────────

/// How many datagrams can still be sent or waited for.
pub open spec fn steps_left(s: HopState) -> int {
    if s.phase is Over {
        0
    } else {
        ((MAX_HOPS - s.hop.index) * PROBES_PER_HOP + (PROBES_PER_HOP - s.probe)) * 2
            - if s.phase is Waiting {
            1int
        } else {
            0int
        }
    }
}

/// The search ends: every datagram that is sent and every wait that ends brings
/// the end nearer, and a reply never puts it off.
pub proof fn law_search_ends(s: HopState, at: u64, ok: bool, ev: ErrEvent)
    requires
        s.wf(),
    ensures
        0 <= steps_left(s) <= 120,
        s.phase is Over <==> steps_left(s) == 0,
        s.phase is Sending ==> steps_left(after_send(s, at, ok)) < steps_left(s),
        s.phase is Waiting ==> steps_left(after_timeout(s)) < steps_left(s),
        steps_left(after_reply(s, ev, at)) <= steps_left(s),
{
}

/// A hop that has an address keeps it, whatever arrives later.
pub proof fn law_answered_hops_stay(s: HopState, at: u64, ok: bool, ev: ErrEvent, i: int)
    requires
        s.wf(),
        0 <= i < s.hops.len(),
        s.hops[i].addr is Some,
    ensures
        after_send(s, at, ok).hops[i] == s.hops[i],
        after_timeout(s).hops[i] == s.hops[i],
        after_reply(s, ev, at).hops[i] == s.hops[i],
{
}

/// A path that answers nothing is given up after eight hops: so many, and not
/// more, silent hops in a row end the search.
pub proof fn law_silence_ends_the_search(s: HopState)
    requires
        s.wf(),
        s.phase is Waiting,
        s.probe + 1 == PROBES_PER_HOP,
        s.hop.addr is None,
    ensures
        s.silent + 1 == MAX_CONSECUTIVE_SILENT ==> after_timeout(s).phase is Over,
        s.silent + 1 < MAX_CONSECUTIVE_SILENT && s.hop.index < MAX_HOPS ==> after_timeout(
            s,
        ).phase is Sending && after_timeout(s).hop.index == s.hop.index + 1,
{
}

/// A reply from a closed port of the destination ends the search with the
/// destination reached.
pub proof fn law_destination_ends_the_search(s: HopState, ev: ErrEvent, at: u64)
    requires
        s.wf(),
        s.phase is Waiting,
        ttl_of_port(ev.dest_port) == Some(s.hop.index),
        ev.kind is PortUnreachable,
    ensures
        after_reply(s, ev, at).phase is Over,
        after_reply(s, ev, at).dest_reached,
        after_reply(s, ev, at).hops.last().addr == ev.offender,
{
}

} // verus!
