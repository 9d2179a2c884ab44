//! DNS: whom to ask for a name, and what the answers mean. The system resolver, the
//! configured name servers and two public resolvers are asked side by side.

pub mod laws;

use crate::addr;
use crate::addr::IpAddr;
use crate::i18n;
use crate::i18n::Lang;
use crate::measure::Millis;
use crate::report::{DnsOutcome, DnsReport, DnsSource, DnsSourceResult};
use crate::text;
use vstd::prelude::*;

verus! {

/// One query: whom it goes to, and how the answer is labelled.
#[derive(Debug)]
pub struct Query {
    pub source: DnsSource,
    pub label: String,
}

/// The contents of a [`Query`].
#[verifier::ext_equal]
pub struct QueryView {
    pub source: DnsSource,
    pub label: Seq<char>,
}

impl View for Query {
    type V = QueryView;

    open spec fn view(&self) -> QueryView {
        QueryView { source: self.source, label: self.label@ }
    }
}

pub open spec fn query_views(list: Seq<Query>) -> Seq<QueryView> {
    Seq::new(list.len(), |i: int| list[i]@)
}

/// The queries for a name, in order: the system resolver, every configured name
/// server, and the two public resolvers.
pub open spec fn queries_of(servers: Seq<IpAddr>, lang: Lang) -> Seq<QueryView> {
    seq![QueryView { source: DnsSource::System, label: i18n::label_system_resolver_text(lang) }]
        + Seq::new(
        servers.len(),
        |i: int|
            QueryView {
                source: DnsSource::Local(servers[i]),
                label: i18n::label_local_ns_text(lang, servers[i]),
            },
    ) + seq![
        QueryView {
            source: DnsSource::Public(IpAddr::V4(1, 1, 1, 1)),
            label: "1.1.1.1 (Cloudflare)"@,
        },
        QueryView {
            source: DnsSource::Public(IpAddr::V4(8, 8, 8, 8)),
            label: "8.8.8.8 (Google)"@,
        },
    ]
}

/// Plans the queries for a host; `None` where the host is an address, so that there
/// is nothing to ask.
pub fn plan(host: &str, servers: &[IpAddr], lang: Lang) -> (r: Option<Vec<Query>>)
    ensures
        match r {
            Some(list) => addr::ip_of(host@) is None && query_views(list@) == queries_of(
                servers@,
                lang,
            ),
            None => addr::ip_of(host@) is Some,
        },
{
    if addr::parse_ip(host).is_some() {
        return None;
    }
    let mut list: Vec<Query> = Vec::new();
    list.push(Query { source: DnsSource::System, label: i18n::label_system_resolver(lang) });
    let ghost all = queries_of(servers@, lang);
    assert(query_views(list@) == all.take(1));
    let mut i: usize = 0;
    while i < servers.len()
        invariant
            i <= servers.len(),
            all == queries_of(servers@, lang),
            query_views(list@) == all.take(i + 1),
        decreases servers.len() - i,
    {
        let ghost now = query_views(list@);
        let ns = servers[i];
        let q = Query { source: DnsSource::Local(ns), label: i18n::label_local_ns(lang, &ns) };
        list.push(q);
        assert(query_views(list@) == now.push(q@));
        assert(all[i + 1] == q@);
        assert(all.take(i + 2) == all.take(i + 1).push(all[i + 1]));
        i = i + 1;
    }
    let ghost now = query_views(list@);
    let first = Query {
        source: DnsSource::Public(IpAddr::V4(1, 1, 1, 1)),
        label: "1.1.1.1 (Cloudflare)".to_owned(),
    };
    let second = Query {
        source: DnsSource::Public(IpAddr::V4(8, 8, 8, 8)),
        label: "8.8.8.8 (Google)".to_owned(),
    };
    list.push(first);
    list.push(second);
    assert(query_views(list@) == now.push(first@).push(second@));
    assert(query_views(list@) =~= all);
    Some(list)
}

/// The name with a trailing dot, so that no search domain is added to it.
pub open spec fn absolute(host: Seq<char>) -> Seq<char> {
    if host.len() > 0 && host.last() == '.' {
        host
    } else {
        host + "."@
    }
}

/// Makes a name absolute.
pub fn fqdn(host: &str) -> (s: String)
    ensures
        s@ == absolute(host@),
{
    let chars = text::chars_of(host);
    let mut s = host.to_owned();
    if chars.len() > 0 && chars[chars.len() - 1] == '.' {
        s
    } else {
        s.append(".");
        s
    }
}

/// What the system resolver did.
#[derive(Debug)]
pub enum SystemReply {
    TimedOut,
    /// The query could not be run.
    NotRun(String),
    /// The resolver complained.
    Failed(String),
    Answered(Vec<IpAddr>),
}

/// The complaint is that the name is unknown. The system resolver says so in words
/// only.
pub open spec fn means_unknown(msg: Seq<char>) -> bool {
    ||| text::contains(msg, "Name or service not known"@)
    ||| text::contains(msg, "failed to lookup address"@)
    ||| text::contains(msg, "nodename nor servname"@)
}

/// Outcome, addresses and latency of a query of the system resolver.
pub open spec fn system_shows(r: DnsSourceResult, reply: SystemReply, latency: Millis) -> bool {
    match reply {
        SystemReply::TimedOut => r.outcome is Timeout && r.ips@.len() == 0 && r.latency_ms is None,
        SystemReply::NotRun(e) => r.outcome matches DnsOutcome::Error(msg) && msg@
            == "join error: "@ + e@ && r.ips@.len() == 0 && r.latency_ms is None,
        SystemReply::Failed(msg) => r.outcome == (if means_unknown(msg@) {
            DnsOutcome::NxDomain
        } else {
            DnsOutcome::Error(msg)
        }) && r.ips@.len() == 0 && r.latency_ms == Some(latency),
        SystemReply::Answered(ips) => r.outcome is Resolved && r.ips@ == addr::sorted_ips(ips@)
            && r.latency_ms == Some(latency),
    }
}

/// Makes the result of a query of the system resolver.
pub fn system_result(query: Query, reply: SystemReply, latency: Millis) -> (r: DnsSourceResult)
    ensures
        r.source == query.source,
        r.label == query.label,
        system_shows(r, reply, latency),
{
    match reply {
        SystemReply::TimedOut => DnsSourceResult {
            source: query.source,
            label: query.label,
            outcome: DnsOutcome::Timeout,
            ips: Vec::new(),
            latency_ms: None,
        },
        SystemReply::NotRun(e) => {
            let mut msg = "join error: ".to_owned();
            msg.append(e.as_str());
            DnsSourceResult {
                source: query.source,
                label: query.label,
                outcome: DnsOutcome::Error(msg),
                ips: Vec::new(),
                latency_ms: None,
            }
        },
        SystemReply::Failed(msg) => {
            let unknown = text::text_has(msg.as_str(), "Name or service not known")
                || text::text_has(msg.as_str(), "failed to lookup address") || text::text_has(
                msg.as_str(),
                "nodename nor servname",
            );
            let outcome = if unknown {
                DnsOutcome::NxDomain
            } else {
                DnsOutcome::Error(msg)
            };
            DnsSourceResult {
                source: query.source,
                label: query.label,
                outcome,
                ips: Vec::new(),
                latency_ms: Some(latency),
            }
        },
        SystemReply::Answered(ips) => DnsSourceResult {
            source: query.source,
            label: query.label,
            outcome: DnsOutcome::Resolved,
            ips: addr::sort_ips(ips.as_slice()),
            latency_ms: Some(latency),
        },
    }
}

/// The response code for a name that does not exist.
pub const CODE_NX_DOMAIN: u16 = 3;

/// The response code for a failure of the server.
pub const CODE_SERV_FAIL: u16 = 2;

/// Why a lookup failed.
#[derive(Debug)]
pub enum LookupFault {
    TimedOut,
    /// No records: the response code, as a number and in words.
    NoRecords { code: u16, words: String },
    /// An error response: the response code, as a number and in words.
    Response { code: u16, words: String },
    Other(String),
}

/// The outcome is that of the fault.
pub open spec fn fault_shows(o: DnsOutcome, fault: LookupFault, lang: Lang) -> bool {
    match fault {
        LookupFault::TimedOut => o is Timeout,
        LookupFault::NoRecords { code, words } => if code == CODE_NX_DOMAIN {
            o is NxDomain
        } else {
            o matches DnsOutcome::Error(e) && e@ == i18n::probe_no_records_text(lang, words@)
        },
        LookupFault::Response { code, words } => if code == CODE_SERV_FAIL {
            o is ServFail
        } else {
            o matches DnsOutcome::Error(e) && e@ == i18n::probe_response_code_text(lang, words@)
        },
        LookupFault::Other(e) => o == DnsOutcome::Error(e),
    }
}

/// Tells how a lookup that failed ended.
pub fn classify_error(fault: LookupFault, lang: Lang) -> (o: DnsOutcome)
    ensures
        fault_shows(o, fault, lang),
{
    match fault {
        LookupFault::TimedOut => DnsOutcome::Timeout,
        LookupFault::NoRecords { code, words } => if code == CODE_NX_DOMAIN {
            DnsOutcome::NxDomain
        } else {
            DnsOutcome::Error(i18n::probe_no_records(lang, words.as_str()))
        },
        LookupFault::Response { code, words } => if code == CODE_SERV_FAIL {
            DnsOutcome::ServFail
        } else {
            DnsOutcome::Error(i18n::probe_response_code(lang, words.as_str()))
        },
        LookupFault::Other(e) => DnsOutcome::Error(e),
    }
}

/// What a name server did that was asked directly.
#[derive(Debug)]
pub enum DirectReply {
    /// The resolver could not be set up.
    NotSetUp(String),
    TimedOut,
    Failed(LookupFault),
    Answered(Vec<IpAddr>),
}

/// Outcome, addresses and latency of a direct query.
pub open spec fn direct_shows(
    r: DnsSourceResult,
    reply: DirectReply,
    latency: Millis,
    lang: Lang,
) -> bool {
    match reply {
        DirectReply::NotSetUp(e) => r.outcome matches DnsOutcome::Error(msg) && msg@
            == i18n::probe_resolver_init_failed_text(lang, e@) && r.ips@.len() == 0
            && r.latency_ms is None,
        DirectReply::TimedOut => r.outcome is Timeout && r.ips@.len() == 0 && r.latency_ms is None,
        DirectReply::Failed(fault) => fault_shows(r.outcome, fault, lang) && r.ips@.len() == 0
            && r.latency_ms == Some(latency),
        DirectReply::Answered(ips) => r.outcome is Resolved && r.ips@ == addr::sorted_ips(ips@)
            && r.latency_ms == Some(latency),
    }
}

/// Makes the result of a direct query.
pub fn direct_result(query: Query, reply: DirectReply, latency: Millis, lang: Lang) -> (r:
    DnsSourceResult)
    ensures
        r.source == query.source,
        r.label == query.label,
        direct_shows(r, reply, latency, lang),
{
    match reply {
        DirectReply::NotSetUp(e) => DnsSourceResult {
            source: query.source,
            label: query.label,
            outcome: DnsOutcome::Error(i18n::probe_resolver_init_failed(lang, e.as_str())),
            ips: Vec::new(),
            latency_ms: None,
        },
        DirectReply::TimedOut => DnsSourceResult {
            source: query.source,
            label: query.label,
            outcome: DnsOutcome::Timeout,
            ips: Vec::new(),
            latency_ms: None,
        },
        DirectReply::Failed(fault) => DnsSourceResult {
            source: query.source,
            label: query.label,
            outcome: classify_error(fault, lang),
            ips: Vec::new(),
            latency_ms: Some(latency),
        },
        DirectReply::Answered(ips) => DnsSourceResult {
            source: query.source,
            label: query.label,
            outcome: DnsOutcome::Resolved,
            ips: addr::sort_ips(ips.as_slice()),
            latency_ms: Some(latency),
        },
    }
}

/// The result of the stage: that of all queries, or that none was needed.
pub fn gather(sources: Option<Vec<DnsSourceResult>>) -> (r: DnsReport)
    ensures
        match sources {
            Some(list) => r.sources == list && !r.skipped,
            None => r.sources@.len() == 0 && r.skipped,
        },
{
    match sources {
        Some(list) => DnsReport { sources: list, skipped: false },
        None => DnsReport { sources: Vec::new(), skipped: true },
    }
}

/// Every name is asked of the system, of each configured name server, and of the two
/// public resolvers.
pub proof fn law_every_source_is_asked(servers: Seq<IpAddr>, lang: Lang, i: int)
    ensures
        queries_of(servers, lang).len() == 3 + servers.len(),
        queries_of(servers, lang)[0].source is System,
        0 <= i < servers.len() ==> queries_of(servers, lang)[i + 1].source == DnsSource::Local(
            servers[i],
        ),
        queries_of(servers, lang).last().source == DnsSource::Public(IpAddr::V4(8, 8, 8, 8)),
        queries_of(servers, lang).drop_last().last().source == DnsSource::Public(
            IpAddr::V4(1, 1, 1, 1),
        ),
{
}

} // verus!
