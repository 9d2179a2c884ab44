//! What the course of an HTTP request promises.

use crate::i18n::Lang;
use crate::measure::Millis;
use crate::probe::http;
use crate::probe::http::{FetchState, ResponseHead};
use crate::report::HttpReport;
use crate::text;
use crate::text::laws;
use vstd::prelude::*;

verus! {

/// What holds of every request. Nothing is known before the last response; a request
/// that is over has a time, and without an error it has the status of a response that
/// is no redirect.
pub open spec fn sound(s: FetchState) -> bool {
    &&& s.chain.len() <= 5
    &&& s.phase is Requesting ==> s.status is None && s.ttfb is None && s.total is None && s.error
        is None && s.alt_svc is None
    &&& s.phase is Reading ==> s.status is Some && s.ttfb is Some && s.total is None && s.error
        is None
    &&& s.phase is Over ==> s.total is Some
    &&& s.ttfb is Some ==> s.status is Some && !(300 <= s.status->0 <= 399)
    &&& s.phase is Over && s.error is None ==> s.ttfb is Some
}

/// Every request stays sound.
pub proof fn law_requests_stay_sound(
    s: FetchState,
    url: Seq<char>,
    lang: Lang,
    head: ResponseHead,
    next: Seq<char>,
    error: Seq<char>,
    fault: Option<Seq<char>>,
    total: Millis,
)
    requires
        sound(s),
    ensures
        sound(http::started(url, lang)),
        sound(http::after_response(s, head, next)),
        sound(http::after_failure(s, error, total)),
        sound(http::after_body(s, fault, total)),
{
}

/// A response whose status does not begin with a 3 is the last one: its status, its
/// time to the first byte and its `alt-svc` are kept, and its body is read next.
pub proof fn law_last_response(s: FetchState, head: ResponseHead, next: Seq<char>)
    requires
        s.phase is Requesting,
        head.status / 100 != 3,
    ensures
        ({
            let after = http::after_response(s, head, next);
            &&& after.phase is Reading
            &&& after.status == Some(head.status)
            &&& after.ttfb == Some(head.ttfb)
            &&& after.alt_svc is Some <==> head.alt_svc is Some
            &&& head.alt_svc is Some ==> after.alt_svc->0 == head.alt_svc->0@
            &&& after.chain == s.chain
            &&& after.current == s.current
            &&& after.error == s.error
        }),
{
}

/// A redirect is a response whose status begins with a 3. The first five with a
/// `Location` are followed and recorded, and nothing else is kept of them.
pub proof fn law_followed_redirect(s: FetchState, head: ResponseHead, next: Seq<char>)
    requires
        s.phase is Requesting,
        head.status / 100 == 3,
        head.location is Some,
        s.chain.len() <= 4,
    ensures
        ({
            let after = http::after_response(s, head, next);
            &&& after.phase is Requesting
            &&& after.current == next
            &&& after.chain.len() == s.chain.len() + 1
            &&& after.chain.drop_last() == s.chain
            &&& after.chain.last() == text::dec(head.status as nat) + " -> "@ + next
            &&& after.status == s.status
            &&& after.ttfb == s.ttfb
            &&& after.alt_svc == s.alt_svc
            &&& after.error == s.error
        }),
{
    assert(http::after_response(s, head, next).chain.drop_last() =~= s.chain);
}

/// The sixth redirect, or one without a `Location`, ends the request with an error, its
/// status and the time.
pub proof fn law_refused_redirect(s: FetchState, head: ResponseHead, next: Seq<char>)
    requires
        s.phase is Requesting,
        head.status / 100 == 3,
        head.location is None || s.chain.len() >= 5,
    ensures
        ({
            let after = http::after_response(s, head, next);
            &&& after.phase is Over
            &&& after.error is Some
            &&& after.status == Some(head.status)
            &&& after.total == Some(head.total)
            &&& after.chain == s.chain
            &&& s.chain.len() >= 5 && s.lang is En ==> after.error->0
                == "more than "@ + text::dec(5) + " redirects"@
            &&& s.chain.len() < 5 && s.lang is En ==> after.error->0
                == "redirect response has no Location header"@
        }),
{
}

/// A failure ends the request with that error and the time; what was followed so far
/// stays known.
pub proof fn law_failure(s: FetchState, error: Seq<char>, total: Millis)
    requires
        s.phase is Requesting,
    ensures
        ({
            let after = http::after_failure(s, error, total);
            &&& after.phase is Over
            &&& after.error == Some(error)
            &&& after.total == Some(total)
            &&& after.chain == s.chain
            &&& after.status == s.status
            &&& after.ttfb == s.ttfb
        }),
{
}

/// Reading the body ends the request with the time. The status stays, also where the
/// body could not be read, which is told as an error that holds the reason.
pub proof fn law_body(s: FetchState, fault: Option<Seq<char>>, total: Millis)
    requires
        s.phase is Reading,
        s.error is None,
    ensures
        ({
            let after = http::after_body(s, fault, total);
            &&& after.phase is Over
            &&& after.total == Some(total)
            &&& after.status == s.status
            &&& after.ttfb == s.ttfb
            &&& after.alt_svc == s.alt_svc
            &&& after.chain == s.chain
            &&& after.error is Some <==> fault is Some
            &&& fault is Some ==> laws::holds(after.error->0, fault->0)
        }),
{
    if fault is Some {
        let e = http::after_body(s, fault, total).error->0;
        let f = fault->0;
        assert(e + Seq::<char>::empty() =~= e);
        assert(laws::is_made_of(e, "failed to read body: "@, f, Seq::empty())
            || laws::is_made_of(e, "ボディ受信失敗: "@, f, Seq::empty()));
    }
}

/// A request that is over does not change.
pub proof fn law_over_is_over(
    s: FetchState,
    head: ResponseHead,
    next: Seq<char>,
    error: Seq<char>,
    fault: Option<Seq<char>>,
    total: Millis,
)
    requires
        s.phase is Over,
    ensures
        http::after_response(s, head, next) == s,
        http::after_failure(s, error, total) == s,
        http::after_body(s, fault, total) == s,
{
}

/// HTTP/3 is advertised exactly where the `alt-svc` header of the last response holds
/// `h3`.
pub proof fn law_advertised_h3(r: HttpReport, s: FetchState)
    requires
        http::report_shows(r, s),
    ensures
        r.h3_advertised <==> r.alt_svc is Some && laws::holds(r.alt_svc->0@, "h3"@),
        r.alt_svc is Some <==> s.alt_svc is Some,
        r.alt_svc is Some ==> r.alt_svc->0@ == s.alt_svc->0,
        r.status == s.status,
        r.ttfb_ms == s.ttfb,
        r.total_ms == s.total,
        r.error is Some <==> s.error is Some,
        r.error is Some ==> r.error->0@ == s.error->0,
{
    if r.alt_svc is Some {
        laws::law_search(r.alt_svc->0@, "h3"@);
    }
}

/// A redirect leads to the URL that its reference resolves to, and to the reference
/// itself where it resolves to none.
pub proof fn law_destination(url: Seq<char>, reference: Seq<char>)
    ensures
        http::next_of(Some(url), reference) == url,
        http::next_of(None, reference) == reference,
{
}

} // verus!
