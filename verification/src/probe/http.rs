//! HTTP: a request that follows redirects. Whoever drives it sends the requests and
//! reads the bodies.

pub mod laws;

use crate::i18n;
use crate::i18n::Lang;
use crate::measure::Millis;
use crate::report::HttpReport;
use crate::text;
use vstd::prelude::*;

verus! {

/// So many redirects are followed.
pub const MAX_REDIRECTS: usize = 5;

// ── Redirects ───────────────────────────────────────────────────────────

/// The URL that a reference leads to from a base URL, as `reqwest::Url` resolves it;
/// nothing where the base or the result is no URL.
pub uninterp spec fn joined_url(base: Seq<char>, reference: Seq<char>) -> Option<Seq<char>>;

/// Calls `reqwest::Url::parse` on the base and `reqwest::Url::join` on the reference,
/// and gives the result in text. It is a function of the two texts and has a name.
#[verifier::external_body]
fn join_url(base: &str, reference: &str) -> (r: Option<String>)
    ensures
        match r {
            Some(u) => joined_url(base@, reference@) == Some(u@),
            None => joined_url(base@, reference@) is None,
        },
{
    match reqwest::Url::parse(base) {
        Ok(url) => match url.join(reference) {
            Ok(u) => Some(u.to_string()),
            Err(_) => None,
        },
        Err(_) => None,
    }
}

/// Where a redirect leads: the resolved URL, or the reference as it stands where it
/// could not be resolved.
pub open spec fn next_of(resolved: Option<Seq<char>>, reference: Seq<char>) -> Seq<char> {
    match resolved {
        Some(u) => u,
        None => reference,
    }
}

/// Picks where a redirect leads.
pub fn choose_next(resolved: Option<String>, reference: String) -> (s: String)
    ensures
        s@ == next_of(
            match resolved {
                Some(u) => Some(u@),
                None => None,
            },
            reference@,
        ),
{
    match resolved {
        Some(u) => u,
        None => reference,
    }
}

/// The status of a redirect.
pub open spec fn is_redirect(status: u16) -> bool {
    300 <= status < 400
}

/// The header advertises HTTP/3.
pub open spec fn offers_h3(alt_svc: Option<Seq<char>>) -> bool {
    alt_svc is Some && text::contains(alt_svc->0, "h3"@)
}

// ── The course of a request ─────────────────────────────────────────────

/// What a request waits for.
#[derive(Debug, Clone, Copy, PartialEq, Eq, Structural)]
pub enum FetchPhase {
    /// A request is to be sent.
    Requesting,
    /// The body of the last response is to be read.
    Reading,
    Over,
}

/// The head of a response.
#[derive(Debug)]
pub struct ResponseHead {
    pub status: u16,
    /// The `Location` header.
    pub location: Option<String>,
    /// The `alt-svc` header.
    pub alt_svc: Option<String>,
    /// From the sending of the request to the head of its response.
    pub ttfb: Millis,
    /// From the first request on.
    pub total: Millis,
}

/// The state of a request.
#[verifier::ext_equal]
pub struct FetchState {
    pub lang: Lang,
    /// The URL to be requested.
    pub current: Seq<char>,
    /// The redirects that were followed.
    pub chain: Seq<Seq<char>>,
    pub status: Option<u16>,
    pub ttfb: Option<Millis>,
    pub total: Option<Millis>,
    pub error: Option<Seq<char>>,
    pub alt_svc: Option<Seq<char>>,
    pub phase: FetchPhase,
}

pub open spec fn started(url: Seq<char>, lang: Lang) -> FetchState {
    FetchState {
        lang,
        current: url,
        chain: Seq::empty(),
        status: None,
        ttfb: None,
        total: None,
        error: None,
        alt_svc: None,
        phase: FetchPhase::Requesting,
    }
}

/// The request ended with an error.
pub open spec fn broken_off(
    s: FetchState,
    status: Option<u16>,
    error: Seq<char>,
    total: Millis,
) -> FetchState {
    FetchState {
        status,
        error: Some(error),
        total: Some(total),
        phase: FetchPhase::Over,
        ..s
    }
}

/// The entry of the redirect chain.
pub open spec fn chain_entry(status: u16, next: Seq<char>) -> Seq<char> {
    text::dec(status as nat) + " -> "@ + next
}

pub open spec fn view_of(t: Option<String>) -> Option<Seq<char>> {
    match t {
        Some(t) => Some(t@),
        None => None,
    }
}

/// The state after a response whose redirect, if it is one, leads to `next`. A
/// redirect is followed, unless it has no `Location` or too many were followed
/// already; any other response is the last one.
pub open spec fn after_response(s: FetchState, head: ResponseHead, next: Seq<char>) -> FetchState {
    if !(s.phase is Requesting) {
        s
    } else if !is_redirect(head.status) {
        FetchState {
            status: Some(head.status),
            ttfb: Some(head.ttfb),
            alt_svc: view_of(head.alt_svc),
            phase: FetchPhase::Reading,
            ..s
        }
    } else if s.chain.len() >= MAX_REDIRECTS {
        broken_off(
            s,
            Some(head.status),
            i18n::probe_too_many_redirects_text(s.lang, MAX_REDIRECTS),
            head.total,
        )
    } else if head.location is None {
        broken_off(
            s,
            Some(head.status),
            i18n::probe_no_location_header_text(s.lang),
            head.total,
        )
    } else {
        FetchState { current: next, chain: s.chain.push(chain_entry(head.status, next)), ..s }
    }
}

/// The state after a request that got no response.
pub open spec fn after_failure(s: FetchState, error: Seq<char>, total: Millis) -> FetchState {
    if s.phase is Requesting {
        broken_off(s, s.status, error, total)
    } else {
        s
    }
}

/// The state after the body was read, or could not be.
pub open spec fn after_body(s: FetchState, fault: Option<Seq<char>>, total: Millis) -> FetchState {
    if s.phase is Reading {
        FetchState {
            error: match fault {
                Some(e) => Some(i18n::probe_body_read_failed_text(s.lang, e)),
                None => s.error,
            },
            total: Some(total),
            phase: FetchPhase::Over,
            ..s
        }
    } else {
        s
    }
}

/// A request under way.
pub struct Fetch {
    lang: Lang,
    current: String,
    chain: Vec<String>,
    status: Option<u16>,
    ttfb: Option<Millis>,
    total: Option<Millis>,
    error: Option<String>,
    alt_svc: Option<String>,
    phase: FetchPhase,
}

impl View for Fetch {
    type V = FetchState;

    closed spec fn view(&self) -> FetchState {
        FetchState {
            lang: self.lang,
            current: self.current@,
            chain: text::texts(self.chain@),
            status: self.status,
            ttfb: self.ttfb,
            total: self.total,
            error: view_of(self.error),
            alt_svc: view_of(self.alt_svc),
            phase: self.phase,
        }
    }
}

impl Fetch {
    pub fn new(url: &str, lang: Lang) -> (f: Self)
        ensures
            f@ == started(url@, lang),
    {
        let f = Fetch {
            lang,
            current: url.to_owned(),
            chain: Vec::new(),
            status: None,
            ttfb: None,
            total: None,
            error: None,
            alt_svc: None,
            phase: FetchPhase::Requesting,
        };
        assert(f@.chain =~= Seq::<Seq<char>>::empty());
        f
    }

    /// What the request waits for.
    pub fn phase(&self) -> (p: FetchPhase)
        ensures
            p == self@.phase,
    {
        self.phase
    }

    /// The URL to be requested.
    pub fn url(&self) -> (s: &str)
        ensures
            s@ == self@.current,
    {
        self.current.as_str()
    }

    fn break_off(&mut self, status: Option<u16>, error: String, total: Millis)
        ensures
            final(self)@ == broken_off(old(self)@, status, error@, total),
    {
        self.status = status;
        self.error = Some(error);
        self.total = Some(total);
        self.phase = FetchPhase::Over;
    }

    /// Takes the head of a response whose redirect, if it is one, leads to `next`.
    pub fn respond_with(&mut self, head: ResponseHead, next: String)
        ensures
            final(self)@ == after_response(old(self)@, head, next@),
    {
        match self.phase {
            FetchPhase::Requesting => {},
            _ => {
                return;
            },
        }
        let ghost before = self@;
        let status = head.status;
        if !(300 <= status && status < 400) {
            self.status = Some(status);
            self.ttfb = Some(head.ttfb);
            self.alt_svc = head.alt_svc;
            self.phase = FetchPhase::Reading;
            return;
        }
        assert(self@.chain.len() == self.chain@.len());
        if self.chain.len() >= MAX_REDIRECTS {
            let error = i18n::probe_too_many_redirects(self.lang, MAX_REDIRECTS);
            self.break_off(Some(status), error, head.total);
            return;
        }
        if head.location.is_none() {
            let error = i18n::probe_no_location_header(self.lang);
            self.break_off(Some(status), error, head.total);
            return;
        }
        let mut entry = text::dec_text(status as u64);
        entry.append(" -> ");
        entry.append(next.as_str());
        self.chain.push(entry);
        assert(self@.chain =~= before.chain.push(entry@));
        self.current = next;
    }

    /// Takes the head of a response.
    pub fn respond(&mut self, head: ResponseHead)
        ensures
            final(self)@ == after_response(
                old(self)@,
                head,
                match head.location {
                    Some(reference) => next_of(
                        joined_url(old(self)@.current, reference@),
                        reference@,
                    ),
                    None => old(self)@.current,
                },
            ),
    {
        let next = match &head.location {
            Some(reference) => choose_next(
                join_url(self.current.as_str(), reference.as_str()),
                reference.clone(),
            ),
            None => self.current.clone(),
        };
        self.respond_with(head, next);
    }

    /// Takes note that a request got no response.
    pub fn fail(&mut self, error: String, total: Millis)
        ensures
            final(self)@ == after_failure(old(self)@, error@, total),
    {
        match self.phase {
            FetchPhase::Requesting => {
                let status = self.status;
                self.break_off(status, error, total);
            },
            _ => {},
        }
    }

    /// Takes note that the body was read, or why it could not be.
    pub fn read(&mut self, fault: Option<String>, total: Millis)
        ensures
            final(self)@ == after_body(old(self)@, view_of(fault), total),
    {
        match self.phase {
            FetchPhase::Reading => {
                if let Some(e) = fault {
                    self.error = Some(i18n::probe_body_read_failed(self.lang, e.as_str()));
                }
                self.total = Some(total);
                self.phase = FetchPhase::Over;
            },
            _ => {},
        }
    }

    /// The result of the stage. The times of the other stages are not known here.
    pub fn into_report(self) -> (r: HttpReport)
        ensures
            report_shows(r, self@),
    {
        let h3_advertised = match &self.alt_svc {
            Some(v) => text::text_has(v.as_str(), "h3"),
            None => false,
        };
        HttpReport {
            status: self.status,
            redirect_chain: self.chain,
            dns_ms: None,
            connect_ms: None,
            tls_ms: None,
            ttfb_ms: self.ttfb,
            total_ms: self.total,
            error: self.error,
            h3_advertised,
            alt_svc: self.alt_svc,
        }
    }
}

/// The result is that of the request.
pub open spec fn report_shows(r: HttpReport, s: FetchState) -> bool {
    &&& r.status == s.status
    &&& text::texts(r.redirect_chain@) == s.chain
    &&& r.dns_ms is None
    &&& r.connect_ms is None
    &&& r.tls_ms is None
    &&& r.ttfb_ms == s.ttfb
    &&& r.total_ms == s.total
    &&& view_of(r.error) == s.error
    &&& r.h3_advertised == offers_h3(s.alt_svc)
    &&& view_of(r.alt_svc) == s.alt_svc
}

/// The result of a stage whose client could not be set up.
pub fn not_set_up(error: &str, lang: Lang) -> (r: HttpReport)
    ensures
        r.error is Some,
        r.error->0@ == i18n::probe_http_client_init_failed_text(lang, error@),
        r.status is None,
        r.redirect_chain@.len() == 0,
        r.dns_ms is None,
        r.connect_ms is None,
        r.tls_ms is None,
        r.ttfb_ms is None,
        r.total_ms is None,
        !r.h3_advertised,
        r.alt_svc is None,
{
    let mut r = HttpReport::default();
    r.error = Some(i18n::probe_http_client_init_failed(lang, error));
    r
}

// ── What holds of every request ─────────────────────────────────────────

/// How many more responses a request can take.
pub open spec fn responses_left(s: FetchState) -> int {
    match s.phase {
        FetchPhase::Requesting => 7 - s.chain.len(),
        FetchPhase::Reading => 1,
        FetchPhase::Over => 0,
    }
}

/// A request ends: five redirects are followed at most, and every response brings the
/// end nearer.
pub proof fn law_redirects_end(s: FetchState, head: ResponseHead, next: Seq<char>)
    requires
        s.phase is Requesting,
        s.chain.len() <= MAX_REDIRECTS,
    ensures
        after_response(s, head, next).chain.len() <= MAX_REDIRECTS,
        0 <= responses_left(after_response(s, head, next)) < responses_left(s),
        s.chain.len() == MAX_REDIRECTS && is_redirect(head.status) ==> after_response(
            s,
            head,
            next,
        ).phase is Over && after_response(s, head, next).error is Some,
{
}

/// A redirect that is followed is recorded with its status and its destination, and
/// the destination is requested next.
pub proof fn law_redirects_are_recorded(s: FetchState, head: ResponseHead, next: Seq<char>)
    requires
        s.phase is Requesting,
        is_redirect(head.status),
        head.location is Some,
        s.chain.len() < MAX_REDIRECTS,
    ensures
        after_response(s, head, next).current == next,
        after_response(s, head, next).chain == s.chain.push(chain_entry(head.status, next)),
        after_response(s, head, next).phase is Requesting,
{
}

} // verus!
