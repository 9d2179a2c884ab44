//! QUIC: what the attempt to shake hands amounts to.

pub mod laws;

use crate::measure::Millis;
use crate::report::{QuicOutcome, QuicReport};
use vstd::prelude::*;
use vstd::utf8;

verus! {

/// The application protocol that is offered.
pub const ALPN: &'static str = "h3";

/// The text that bytes stand for, with a replacement character for what is not UTF-8,
/// as the standard library decodes it.
pub uninterp spec fn lossy_text(bytes: Seq<u8>) -> Seq<char>;

/// Calls `String::from_utf8_lossy`. The result is a function of the bytes and has a
/// name. Bytes that are UTF-8 stand for the text that they encode.
#[verifier::external_body]
fn decode_lossy(bytes: &[u8]) -> (s: String)
    ensures
        s@ == lossy_text(bytes@),
        utf8::valid_utf8(bytes@) ==> s@ == utf8::decode_utf8(bytes@),
{
    String::from_utf8_lossy(bytes).to_string()
}

/// How the attempt ended.
#[derive(Debug)]
pub enum QuicEnd {
    /// Something failed on this machine.
    LocalFault(String),
    /// Nothing came back in time.
    TimedOut,
    /// The server answered, but the negotiation failed.
    Rejected(String),
    /// The handshake succeeded, with this application protocol.
    Connected { handshake_ms: Millis, alpn: Option<Vec<u8>> },
}

/// Tells the outcome of a handshake, given the application protocol in text.
pub fn outcome_with(end: QuicEnd, alpn: Option<String>) -> (o: QuicOutcome)
    ensures
        match end {
            QuicEnd::LocalFault(e) => o == QuicOutcome::LocalError(e),
            QuicEnd::TimedOut => o is Timeout,
            QuicEnd::Rejected(e) => o == QuicOutcome::HandshakeError(e),
            QuicEnd::Connected { handshake_ms, .. } => o == (QuicOutcome::Established {
                handshake_ms,
                negotiated_alpn: alpn,
            }),
        },
{
    match end {
        QuicEnd::LocalFault(e) => QuicOutcome::LocalError(e),
        QuicEnd::TimedOut => QuicOutcome::Timeout,
        QuicEnd::Rejected(e) => QuicOutcome::HandshakeError(e),
        QuicEnd::Connected { handshake_ms, .. } => QuicOutcome::Established {
            handshake_ms,
            negotiated_alpn: alpn,
        },
    }
}

/// The outcome is that of the attempt.
pub open spec fn outcome_shows(o: QuicOutcome, end: QuicEnd) -> bool {
    match end {
        QuicEnd::LocalFault(e) => o == QuicOutcome::LocalError(e),
        QuicEnd::TimedOut => o is Timeout,
        QuicEnd::Rejected(e) => o == QuicOutcome::HandshakeError(e),
        QuicEnd::Connected { handshake_ms, alpn } => match o {
            QuicOutcome::Established { handshake_ms: ms, negotiated_alpn } => {
                &&& ms == handshake_ms
                &&& match alpn {
                    Some(bytes) => negotiated_alpn is Some && negotiated_alpn->0@ == lossy_text(
                        bytes@,
                    ),
                    None => negotiated_alpn is None,
                }
            },
            _ => false,
        },
    }
}

/// Makes the result of the stage. An application protocol in UTF-8 is told as it is.
pub fn conclude(end: QuicEnd) -> (r: QuicReport)
    ensures
        outcome_shows(r.outcome, end),
        match (end, r.outcome) {
            (
                QuicEnd::Connected { alpn: Some(bytes), .. },
                QuicOutcome::Established { negotiated_alpn: Some(s), .. },
            ) => utf8::valid_utf8(bytes@) ==> s@ == utf8::decode_utf8(bytes@),
            _ => true,
        },
{
    let alpn = match &end {
        QuicEnd::Connected { alpn: Some(bytes), .. } => Some(decode_lossy(bytes.as_slice())),
        _ => None,
    };
    QuicReport { outcome: outcome_with(end, alpn) }
}

} // verus!
