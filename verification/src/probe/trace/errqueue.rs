//! Records of the Linux socket error queue, as plain values: which ICMP message
//! a record stands for, who sent it and which packet it answers.

use crate::addr::IpAddr;
use vstd::prelude::*;

verus! {

/// `SO_EE_ORIGIN_LOCAL`: the error arose on this machine.
pub const ORIGIN_LOCAL: u8 = 1;

/// `SO_EE_ORIGIN_ICMP`: an ICMP message for IPv4.
pub const ORIGIN_V4: u8 = 2;

/// `SO_EE_ORIGIN_ICMP6`: an ICMP message for IPv6.
pub const ORIGIN_V6: u8 = 3;

/// The error number of a packet too long to send (`EMSGSIZE`).
pub const MESSAGE_TOO_LONG: u32 = 90;

/// `AF_INET`.
pub const FAMILY_V4: u16 = 2;

/// `AF_INET6`.
pub const FAMILY_V6: u16 = 10;

// Types and codes of ICMP for IPv4.

pub const UNREACHABLE_V4: u8 = 3;

pub const TIME_EXCEEDED_V4: u8 = 11;

pub const PORT_CODE_V4: u8 = 3;

pub const FRAG_NEEDED_CODE_V4: u8 = 4;

// Types and codes of ICMP for IPv6.

pub const UNREACHABLE_V6: u8 = 1;

pub const TOO_BIG_V6: u8 = 2;

pub const TIME_EXCEEDED_V6: u8 = 3;

pub const PORT_CODE_V6: u8 = 4;

/// What a record says.
#[derive(Debug, Clone, Copy, PartialEq, Eq, Structural)]
pub enum ErrKind {
    /// The TTL ran out: a router on the path replied.
    TimeExceeded,
    /// The port is closed: the destination replied.
    PortUnreachable,
    /// The packet was turned away for another reason.
    Unreachable,
    /// The packet was too large for a link and could not be split.
    FragNeeded,
    /// The packet was too large for this machine.
    LocalEmsgsize,
    Other,
}

/// The numbers of a record (`sock_extended_err`).
#[derive(Debug, Clone, Copy, PartialEq, Eq, Structural)]
pub struct ErrRecord {
    pub errno: u32,
    pub origin: u8,
    pub kind: u8,
    pub code: u8,
    pub info: u32,
}

/// One event of the error queue.
#[derive(Debug, Clone, Copy, PartialEq, Eq, Structural)]
pub struct ErrEvent {
    pub kind: ErrKind,
    /// Who sent the ICMP message.
    pub offender: Option<IpAddr>,
    /// The destination port of the packet that is answered.
    pub dest_port: Option<u16>,
    /// For a packet that was too large: the MTU, where it is given.
    pub info: u32,
}

/// The meaning of a record.
pub open spec fn classified(r: ErrRecord) -> ErrKind {
    if r.origin == ORIGIN_V4 && r.kind == TIME_EXCEEDED_V4 {
        ErrKind::TimeExceeded
    } else if r.origin == ORIGIN_V4 && r.kind == UNREACHABLE_V4 {
        if r.code == PORT_CODE_V4 {
            ErrKind::PortUnreachable
        } else if r.code == FRAG_NEEDED_CODE_V4 {
            ErrKind::FragNeeded
        } else {
            ErrKind::Unreachable
        }
    } else if r.origin == ORIGIN_V6 && r.kind == TIME_EXCEEDED_V6 {
        ErrKind::TimeExceeded
    } else if r.origin == ORIGIN_V6 && r.kind == TOO_BIG_V6 {
        ErrKind::FragNeeded
    } else if r.origin == ORIGIN_V6 && r.kind == UNREACHABLE_V6 {
        if r.code == PORT_CODE_V6 {
            ErrKind::PortUnreachable
        } else {
            ErrKind::Unreachable
        }
    } else if r.origin == ORIGIN_LOCAL && r.errno == MESSAGE_TOO_LONG {
        ErrKind::LocalEmsgsize
    } else {
        ErrKind::Other
    }
}

/// Classifies a record.
pub fn classify(r: &ErrRecord) -> (kind: ErrKind)
    ensures
        kind == classified(*r),
{
    if r.origin == ORIGIN_V4 {
        if r.kind == TIME_EXCEEDED_V4 {
            ErrKind::TimeExceeded
        } else if r.kind == UNREACHABLE_V4 {
            if r.code == PORT_CODE_V4 {
                ErrKind::PortUnreachable
            } else if r.code == FRAG_NEEDED_CODE_V4 {
                ErrKind::FragNeeded
            } else {
                ErrKind::Unreachable
            }
        } else {
            ErrKind::Other
        }
    } else if r.origin == ORIGIN_V6 {
        if r.kind == TIME_EXCEEDED_V6 {
            ErrKind::TimeExceeded
        } else if r.kind == TOO_BIG_V6 {
            ErrKind::FragNeeded
        } else if r.kind == UNREACHABLE_V6 {
            if r.code == PORT_CODE_V6 {
                ErrKind::PortUnreachable
            } else {
                ErrKind::Unreachable
            }
        } else {
            ErrKind::Other
        }
    } else if r.origin == ORIGIN_LOCAL && r.errno == MESSAGE_TOO_LONG {
        ErrKind::LocalEmsgsize
    } else {
        ErrKind::Other
    }
}

/// The number that two bytes stand for, the more significant one first.
pub open spec fn be16(hi: u8, lo: u8) -> u16 {
    (hi * 256 + lo) as u16
}

fn read_be16(hi: u8, lo: u8) -> (n: u16)
    ensures
        n == be16(hi, lo),
{
    hi as u16 * 256 + lo as u16
}

/// Address and port of a socket address, given its family and the bytes after
/// the family field.
pub open spec fn sockaddr(family: u16, body: Seq<u8>) -> Option<(IpAddr, u16)> {
    if family == FAMILY_V4 && body.len() >= 6 {
        Some((IpAddr::V4(body[2], body[3], body[4], body[5]), be16(body[0], body[1])))
    } else if family == FAMILY_V6 && body.len() >= 22 {
        Some(
            (
                IpAddr::V6(
                    be16(body[6], body[7]),
                    be16(body[8], body[9]),
                    be16(body[10], body[11]),
                    be16(body[12], body[13]),
                    be16(body[14], body[15]),
                    be16(body[16], body[17]),
                    be16(body[18], body[19]),
                    be16(body[20], body[21]),
                ),
                be16(body[0], body[1]),
            ),
        )
    } else {
        None
    }
}

/// Reads a socket address.
pub fn parse_sockaddr(family: u16, body: &[u8]) -> (r: Option<(IpAddr, u16)>)
    ensures
        r == sockaddr(family, body@),
{
    if family == FAMILY_V4 && body.len() >= 6 {
        Some((IpAddr::V4(body[2], body[3], body[4], body[5]), read_be16(body[0], body[1])))
    } else if family == FAMILY_V6 && body.len() >= 22 {
        let ip = IpAddr::V6(
            read_be16(body[6], body[7]),
            read_be16(body[8], body[9]),
            read_be16(body[10], body[11]),
            read_be16(body[12], body[13]),
            read_be16(body[14], body[15]),
            read_be16(body[16], body[17]),
            read_be16(body[18], body[19]),
            read_be16(body[20], body[21]),
        );
        Some((ip, read_be16(body[0], body[1])))
    } else {
        None
    }
}

/// How many bytes a whole socket address takes after its family field.
pub open spec fn whole_body(v6: bool) -> nat {
    if v6 {
        26
    } else {
        14
    }
}

/// The sender of the ICMP message, given the socket address behind a record. A
/// record that is too short for an address of the socket's family names none.
pub open spec fn offender(v6: bool, family: u16, body: Seq<u8>) -> Option<IpAddr> {
    if body.len() < whole_body(v6) {
        None
    } else {
        match sockaddr(family, body) {
            Some((ip, _)) => Some(ip),
            None => None,
        }
    }
}

/// Reads the sender of the ICMP message.
pub fn read_offender(v6: bool, family: u16, body: &[u8]) -> (r: Option<IpAddr>)
    ensures
        r == offender(v6, family, body@),
{
    let need: usize = if v6 {
        26
    } else {
        14
    };
    if body.len() < need {
        return None;
    }
    match parse_sockaddr(family, body) {
        Some((ip, _)) => Some(ip),
        None => None,
    }
}

/// The event that a record stands for. Only an ICMP message has a sender.
pub open spec fn event(r: ErrRecord, sender: Option<IpAddr>, dest_port: Option<u16>) -> ErrEvent {
    ErrEvent {
        kind: classified(r),
        offender: if r.origin == ORIGIN_V4 || r.origin == ORIGIN_V6 {
            sender
        } else {
            None
        },
        dest_port,
        info: r.info,
    }
}

/// Makes an event of a record.
pub fn to_event(r: &ErrRecord, sender: Option<IpAddr>, dest_port: Option<u16>) -> (ev: ErrEvent)
    ensures
        ev == event(*r, sender, dest_port),
{
    let offender = if r.origin == ORIGIN_V4 || r.origin == ORIGIN_V6 {
        sender
    } else {
        None
    };
    ErrEvent { kind: classify(r), offender, dest_port, info: r.info }
}

} // verus!
