//! The MTU probe: which datagrams to send with the don't-fragment flag, and what
//! each reply means.

use crate::probe::trace::errqueue::{ErrEvent, ErrKind};
use crate::report::{MtuProbe, MtuProbeOutcome};
use vstd::prelude::*;

verus! {

/// How long to wait for a reply, in milliseconds.
pub const MTU_FEEDBACK_TIMEOUT_MS: u64 = 700;

/// The packet sizes that are tried, from large to small.
pub const MTU_PROBE_SIZES: [u16; 5] = [1500, 1472, 1400, 1280, 1024];

/// The length of the IP and UDP headers.
pub open spec fn header_len(v6: bool) -> u16 {
    if v6 {
        48
    } else {
        28
    }
}

/// What a reply says about the datagram; `None` where it says nothing.
pub open spec fn feedback_of(ev: ErrEvent) -> Option<MtuProbeOutcome> {
    match ev.kind {
        ErrKind::FragNeeded => Some(
            MtuProbeOutcome::FragNeeded {
                mtu: if ev.info > 0 {
                    Some(ev.info)
                } else {
                    None
                },
            },
        ),
        ErrKind::PortUnreachable => Some(MtuProbeOutcome::Delivered),
        ErrKind::LocalEmsgsize => Some(MtuProbeOutcome::LocalError),
        _ => None,
    }
}

/// Reads a reply; `None` means to go on waiting.
pub fn feedback(ev: &ErrEvent) -> (r: Option<MtuProbeOutcome>)
    ensures
        r == feedback_of(*ev),
{
    match ev.kind {
        ErrKind::FragNeeded => {
            let mtu = if ev.info > 0 {
                Some(ev.info)
            } else {
                None
            };
            Some(MtuProbeOutcome::FragNeeded { mtu })
        },
        ErrKind::PortUnreachable => Some(MtuProbeOutcome::Delivered),
        ErrKind::LocalEmsgsize => Some(MtuProbeOutcome::LocalError),
        _ => None,
    }
}

/// The MTU probe under way.
pub struct MtuSearch {
    v6: bool,
    probes: Vec<MtuProbe>,
}

impl MtuSearch {
    /// The datagrams travel by IPv6.
    pub closed spec fn by_v6(self) -> bool {
        self.v6
    }

    /// The datagrams that are done.
    pub closed spec fn done(self) -> Seq<MtuProbe> {
        self.probes@
    }

    /// The sizes that are done are the first ones of the list.
    pub open spec fn wf(self) -> bool {
        &&& self.done().len() <= MTU_PROBE_SIZES@.len()
        &&& forall|i: int|
            0 <= i < self.done().len() ==> (#[trigger] self.done()[i]).size == MTU_PROBE_SIZES@[i]
    }

    pub fn new(v6: bool) -> (search: Self)
        ensures
            search.wf(),
            search.by_v6() == v6,
            search.done().len() == 0,
    {
        MtuSearch { v6, probes: Vec::new() }
    }

    /// The payload of the next datagram, so that the packet has the next size;
    /// `None` when all sizes are done.
    pub fn next_payload(&self) -> (len: Option<usize>)
        requires
            self.wf(),
        ensures
            len == if self.done().len() < 5 {
                Some((MTU_PROBE_SIZES@[self.done().len() as int] - header_len(self.by_v6())) as usize)
            } else {
                None
            },
            len is Some ==> len->0 + header_len(self.by_v6())
                == MTU_PROBE_SIZES@[self.done().len() as int],
    {
        if self.probes.len() >= 5 {
            return None;
        }
        let size: u16 = MTU_PROBE_SIZES[self.probes.len()];
        let header: u16 = if self.v6 {
            48
        } else {
            28
        };
        assert(MTU_PROBE_SIZES@[0] == 1500);
        assert(MTU_PROBE_SIZES@[1] == 1472);
        assert(MTU_PROBE_SIZES@[2] == 1400);
        assert(MTU_PROBE_SIZES@[3] == 1280);
        assert(MTU_PROBE_SIZES@[4] == 1024);
        Some((size - header) as usize)
    }

    /// Takes note of how the datagram fared.
    pub fn record(&mut self, outcome: MtuProbeOutcome)
        requires
            old(self).wf(),
        ensures
            final(self).wf(),
            final(self).by_v6() == old(self).by_v6(),
            final(self).done() == if old(self).done().len() < 5 {
                old(self).done().push(
                    MtuProbe {
                        size: MTU_PROBE_SIZES@[old(self).done().len() as int],
                        outcome,
                    },
                )
            } else {
                old(self).done()
            },
    {
        if self.probes.len() < 5 {
            let size: u16 = MTU_PROBE_SIZES[self.probes.len()];
            self.probes.push(MtuProbe { size, outcome });
        }
    }

    /// The datagrams that are done.
    pub fn into_probes(self) -> (probes: Vec<MtuProbe>)
        ensures
            probes@ == self.done(),
    {
        self.probes
    }
}

/// The path MTU that the kernel knows after the probe, or else knew before, where
/// it is a possible packet size.
pub open spec fn known_mtu(before: Option<i32>, after: Option<i32>) -> Option<u16> {
    let v = if after is Some {
        after
    } else {
        before
    };
    match v {
        Some(n) => if 0 <= n <= u16::MAX {
            Some(n as u16)
        } else {
            None
        },
        None => None,
    }
}

/// Picks the path MTU that the kernel knows.
pub fn kernel_mtu(before: Option<i32>, after: Option<i32>) -> (r: Option<u16>)
    ensures
        r == known_mtu(before, after),
{
    let v = match after {
        Some(n) => Some(n),
        None => before,
    };
    match v {
        Some(n) => if 0 <= n && n <= 65535 {
            Some(n as u16)
        } else {
            None
        },
        None => None,
    }
}

} // verus!
