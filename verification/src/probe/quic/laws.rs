//! What the outcome of a QUIC attempt promises.

use crate::probe::quic;
use crate::probe::quic::QuicEnd;
use crate::report::QuicOutcome;
use vstd::prelude::*;

verus! {

/// A handshake counts as established exactly where it succeeded, with the time that it
/// took. Silence is a timeout, a refusal by the server is an error of the handshake, and
/// what failed on this machine is a local error; errors are told as they are.
pub proof fn law_outcomes(o: QuicOutcome, end: QuicEnd)
    requires
        quic::outcome_shows(o, end),
    ensures
        o is Established <==> end is Connected,
        o is Timeout <==> end is TimedOut,
        o is HandshakeError <==> end is Rejected,
        o is LocalError <==> end is LocalFault,
        end is Connected ==> o->handshake_ms == end->handshake_ms,
        end is Connected ==> (o->negotiated_alpn is Some <==> end->alpn is Some),
        end is Rejected ==> o->HandshakeError_0 == end->Rejected_0,
        end is LocalFault ==> o->LocalError_0 == end->LocalFault_0,
{
}

} // verus!
