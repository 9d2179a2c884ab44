//! What the records of the error queue and the replies to large datagrams promise,
//! told by the numbers on the wire.

use crate::addr::IpAddr;
use crate::probe::trace::errqueue;
use crate::probe::trace::errqueue::{ErrEvent, ErrRecord};
use crate::probe::trace::mtu;
use crate::report::MtuProbeOutcome;
use vstd::prelude::*;

verus! {

// ── Records ─────────────────────────────────────────────────────────────

/// The TTL ran out: ICMP type 11, or type 3 of ICMP for IPv6.
pub open spec fn is_time_exceeded(r: ErrRecord) -> bool {
    (r.origin == 2 && r.kind == 11) || (r.origin == 3 && r.kind == 3)
}

/// The port is closed: ICMP type 3 and code 3, or type 1 and code 4 of ICMP for IPv6.
pub open spec fn is_closed_port(r: ErrRecord) -> bool {
    (r.origin == 2 && r.kind == 3 && r.code == 3) || (r.origin == 3 && r.kind == 1 && r.code == 4)
}

/// The packet was too big: ICMP type 3 and code 4, or type 2 of ICMP for IPv6.
pub open spec fn is_too_big(r: ErrRecord) -> bool {
    (r.origin == 2 && r.kind == 3 && r.code == 4) || (r.origin == 3 && r.kind == 2)
}

/// The packet was turned away: ICMP type 3, or type 1 of ICMP for IPv6.
pub open spec fn is_turned_away(r: ErrRecord) -> bool {
    (r.origin == 2 && r.kind == 3) || (r.origin == 3 && r.kind == 1)
}

/// Each record has the one meaning that its numbers give it.
pub proof fn law_meaning_of_records(r: ErrRecord)
    ensures
        errqueue::classified(r) is TimeExceeded <==> is_time_exceeded(r),
        errqueue::classified(r) is PortUnreachable <==> is_closed_port(r),
        errqueue::classified(r) is FragNeeded <==> is_too_big(r),
        errqueue::classified(r) is Unreachable <==> is_turned_away(r) && !is_closed_port(r)
            && !is_too_big(r),
        errqueue::classified(r) is LocalEmsgsize <==> r.origin == 1 && r.errno == 90,
{
}

/// An event names the sender of an ICMP message and of nothing else, and keeps the port
/// and the further number.
pub proof fn law_events(r: ErrRecord, sender: Option<IpAddr>, port: Option<u16>)
    ensures
        r.origin == 2 || r.origin == 3 ==> errqueue::event(r, sender, port).offender == sender,
        r.origin != 2 && r.origin != 3 ==> errqueue::event(r, sender, port).offender is None,
        errqueue::event(r, sender, port).dest_port == port,
        errqueue::event(r, sender, port).info == r.info,
        errqueue::event(r, sender, port).kind == errqueue::classified(r),
{
}

// ── Socket addresses ────────────────────────────────────────────────────

/// The two bytes of a number, the more significant one first.
pub open spec fn two_bytes(n: u16) -> Seq<u8> {
    seq![(n / 256) as u8, (n % 256) as u8]
}

/// A socket address for IPv4 is the port and the four bytes of the address; what
/// follows does not matter.
pub proof fn law_socket_address_v4(
    a: u8,
    b: u8,
    c: u8,
    d: u8,
    port: u16,
    rest: Seq<u8>,
)
    ensures
        ({
            let body = two_bytes(port) + seq![a, b, c, d] + rest;
            &&& errqueue::sockaddr(2, body) == Some((IpAddr::V4(a, b, c, d), port))
            &&& errqueue::offender(false, 2, body) == if rest.len() >= 8 {
                Some(IpAddr::V4(a, b, c, d))
            } else {
                None
            }
        }),
{
    let body = two_bytes(port) + seq![a, b, c, d] + rest;
    assert(body[0] == (port / 256) as u8 && body[1] == (port % 256) as u8);
    assert(body[2] == a && body[3] == b && body[4] == c && body[5] == d);
    assert(body.len() == 6 + rest.len());
}

/// A socket address for IPv6 is the port, four bytes of flow information and the
/// sixteen bytes of the address; what follows does not matter.
pub proof fn law_socket_address_v6(
    a: u16,
    b: u16,
    c: u16,
    d: u16,
    e: u16,
    f: u16,
    g: u16,
    h: u16,
    port: u16,
    flow: Seq<u8>,
    rest: Seq<u8>,
)
    requires
        flow.len() == 4,
    ensures
        ({
            let ip = IpAddr::V6(a, b, c, d, e, f, g, h);
            let body = two_bytes(port) + flow + two_bytes(a) + two_bytes(b) + two_bytes(c)
                + two_bytes(d) + two_bytes(e) + two_bytes(f) + two_bytes(g) + two_bytes(h) + rest;
            &&& errqueue::sockaddr(10, body) == Some((ip, port))
            &&& errqueue::offender(true, 10, body) == if rest.len() >= 4 {
                Some(ip)
            } else {
                None
            }
        }),
{
    let body = two_bytes(port) + flow + two_bytes(a) + two_bytes(b) + two_bytes(c) + two_bytes(d)
        + two_bytes(e) + two_bytes(f) + two_bytes(g) + two_bytes(h) + rest;
    assert(body.len() == 22 + rest.len());
    assert(body[0] == (port / 256) as u8 && body[1] == (port % 256) as u8);
    assert(body[6] == (a / 256) as u8 && body[7] == (a % 256) as u8);
    assert(body[8] == (b / 256) as u8 && body[9] == (b % 256) as u8);
    assert(body[10] == (c / 256) as u8 && body[11] == (c % 256) as u8);
    assert(body[12] == (d / 256) as u8 && body[13] == (d % 256) as u8);
    assert(body[14] == (e / 256) as u8 && body[15] == (e % 256) as u8);
    assert(body[16] == (f / 256) as u8 && body[17] == (f % 256) as u8);
    assert(body[18] == (g / 256) as u8 && body[19] == (g % 256) as u8);
    assert(body[20] == (h / 256) as u8 && body[21] == (h % 256) as u8);
}

/// A socket address of another family, or one that is too short, is none.
pub proof fn law_no_socket_address(family: u16, body: Seq<u8>, v6: bool)
    requires
        (family != 2 && family != 10) || (family == 2 && body.len() < 6) || (family == 10
            && body.len() < 22),
    ensures
        errqueue::sockaddr(family, body) is None,
        errqueue::offender(v6, family, body) is None,
{
}

// ── Large datagrams ─────────────────────────────────────────────────────

/// Five sizes are tried, from the largest down, and a datagram leaves room for its IP
/// header (20 bytes, or 40 for IPv6) and its UDP header (8 bytes).
pub proof fn law_sizes()
    ensures
        mtu::MTU_PROBE_SIZES@ == seq![1500u16, 1472, 1400, 1280, 1024],
        mtu::header_len(false) == 20 + 8,
        mtu::header_len(true) == 40 + 8,
{
    assert(mtu::MTU_PROBE_SIZES@ =~= seq![1500u16, 1472, 1400, 1280, 1024]);
}

/// A closed port shows that the datagram arrived. A router that could not pass it on
/// tells the size that it can take, where it gives one. A datagram that this machine
/// cannot send is a local error. Nothing else says anything about the size.
pub proof fn law_feedback(ev: ErrEvent)
    ensures
        mtu::feedback_of(ev) == Some(MtuProbeOutcome::Delivered) <==> ev.kind is PortUnreachable,
        mtu::feedback_of(ev) == Some(MtuProbeOutcome::LocalError) <==> ev.kind is LocalEmsgsize,
        ev.kind is FragNeeded && ev.info >= 1 ==> mtu::feedback_of(ev) == Some(
            MtuProbeOutcome::FragNeeded { mtu: Some(ev.info) },
        ),
        ev.kind is FragNeeded && ev.info == 0 ==> mtu::feedback_of(ev) == Some(
            MtuProbeOutcome::FragNeeded { mtu: None },
        ),
        mtu::feedback_of(ev) is None <==> ev.kind is TimeExceeded || ev.kind is Unreachable
            || ev.kind is Other,
{
}

/// What the kernel knows afterwards outweighs what it knew before, and a number that is
/// no packet size is not used.
pub proof fn law_kernel_mtu(before: Option<i32>, n: i32)
    ensures
        0 <= n <= 65535 ==> mtu::known_mtu(before, Some(n)) == Some(n as u16),
        n < 0 || n > 65535 ==> mtu::known_mtu(before, Some(n)) is None,
        mtu::known_mtu(Some(n), None) == mtu::known_mtu(before, Some(n)),
        mtu::known_mtu(None, None) is None,
{
}

} // verus!
