//! The rules of the verdict engine, in the order of their priority.

use crate::measure::Millis;
use crate::probe::trace;
use crate::probe::trace::HopZone;
use crate::report::{QuicOutcome, Report, TlsReport, TraceData, TraceReport};
use crate::text;
use crate::verdict;
use crate::verdict::summary;
use crate::verdict::summary::{DnsView, TcpView};
use crate::verdict::{Culprit, Evidence, EvidenceView, Finding, FindingView, Headline, Verdict, VerdictView};
use vstd::prelude::*;

verus! {

/// A local DNS slower than this, in milliseconds, is slow.
pub const SLOW_LOCAL_DNS_MS: u32 = 200;

/// A public DNS faster than this, in milliseconds, is fast.
pub const FAST_PUBLIC_DNS_MS: u32 = 100;

/// A first byte later than this, in milliseconds, is slow.
pub const SLOW_TTFB_MS: u32 = 1000;

/// A connect time below this, in milliseconds, is fast.
pub const FAST_CONNECT_MS: u32 = 100;

/// Loss from this percentage on makes a path unstable.
pub const LOSS_PCT_THRESHOLD: u32 = 10;

/// Jitter above this, in milliseconds, makes a path unstable.
pub const JITTER_MS_THRESHOLD: u32 = 50;

/// A certificate with at most this many days left expires soon.
pub const EXPIRY_NOTICE_DAYS: i64 = 14;

// ── When each rule applies ──────────────────────────────────────────────

/// Everybody who answered said that there is no such name.
pub open spec fn name_missing(r: Report) -> bool {
    summary::dns_ran(r.dns) && summary::all_nxdomain(r.dns.sources@)
}

/// Public DNS resolves the name, and local DNS does not.
pub open spec fn local_dns_dead(r: Report) -> bool {
    &&& summary::dns_ran(r.dns)
    &&& summary::resolves(r.dns.sources@, false)
    &&& !summary::resolves(r.dns.sources@, true)
}

/// No DNS source resolves the name.
pub open spec fn dns_dead(r: Report) -> bool {
    &&& summary::dns_ran(r.dns)
    &&& !summary::resolves(r.dns.sources@, false)
    &&& !summary::resolves(r.dns.sources@, true)
}

/// The TLS stage failed.
pub open spec fn tls_error(r: Report) -> bool {
    r.tls is Some && !r.tls->0.verified && r.tls->0.error is Some
}

/// The target was not reached as it should be.
pub open spec fn connection_failed(r: Report) -> bool {
    summary::all_fail(r.tcp.probes@) || tls_error(r)
}

/// Local and public DNS have no answer in common, and the connection fails.
pub open spec fn answers_mismatch(r: Report) -> bool {
    summary::dns_ran(r.dns) && summary::disjoint(r.dns.sources@) && connection_failed(r)
}

/// IPv4 connects, and IPv6 does not.
pub open spec fn ipv6_dead(r: Report) -> bool {
    let p = r.tcp.probes@;
    &&& summary::family_count(p, false, false) > 0
    &&& summary::family_count(p, false, true) == 0
    &&& summary::family_count(p, true, false) > 0
    &&& summary::family_count(p, true, true) > 0
}

pub open spec fn cert_expired(r: Report) -> bool {
    r.tls is Some && r.tls->0.cert_expired
}

pub open spec fn tls_intercepted(r: Report) -> bool {
    r.tls is Some && r.tls->0.interception_suspected
}

/// A proxy is set, and HTTP fails though TCP connects.
pub open spec fn proxy_fault(r: Report) -> bool {
    &&& r.env.proxies@.len() > 0
    &&& summary::connects(r.tcp.probes@)
    &&& r.http is Some
    &&& r.http->0.error is Some
    &&& r.http->0.status is None
}

/// The connection is fast, and the first byte is late.
pub open spec fn server_slow(r: Report) -> bool {
    &&& r.http is Some
    &&& r.http->0.ttfb_ms is Some
    &&& r.http->0.ttfb_ms->0.over(SLOW_TTFB_MS as int)
    &&& summary::best_connect(r.tcp.probes@) is Some
    &&& summary::best_connect(r.tcp.probes@)->0.under(FAST_CONNECT_MS as int)
}

pub open spec fn lossy(r: Report) -> bool {
    r.path is Some && r.path->0.loss_pct.at_least(LOSS_PCT_THRESHOLD as nat)
}

pub open spec fn jittery(r: Report) -> bool {
    &&& r.path is Some
    &&& r.path->0.jitter_ms is Some
    &&& r.path->0.jitter_ms->0.over(JITTER_MS_THRESHOLD as int)
}

/// The measurements of a trace that ran.
pub open spec fn traced(r: Report) -> Option<TraceData> {
    match r.trace {
        Some(TraceReport::Ran(data)) => Some(data),
        _ => None,
    }
}

/// The path MTU that the trace found, where it also found a black hole.
pub open spec fn blackhole_mtu(r: Report) -> Option<u16> {
    match traced(r) {
        Some(data) => if trace::blackhole(data.kernel_mtu, data.mtu_probes@) {
            trace::path_mtu(data.kernel_mtu, data.mtu_probes@)
        } else {
            None
        },
        None => None,
    }
}

/// Small packets get through, and large ones vanish.
pub open spec fn large_packets_vanish(r: Report) -> bool {
    summary::connects(r.tcp.probes@) && blackhole_mtu(r) is Some
}

/// Local DNS is slow, and public DNS is fast.
pub open spec fn local_dns_slow(r: Report) -> bool {
    let local = summary::best_latency(r.dns.sources@, true);
    let public = summary::best_latency(r.dns.sources@, false);
    &&& local is Some
    &&& local->0.over(SLOW_LOCAL_DNS_MS as int)
    &&& public is Some
    &&& public->0.under(FAST_PUBLIC_DNS_MS as int)
}

pub open spec fn h3_advertised(r: Report) -> bool {
    r.http is Some && r.http->0.h3_advertised
}

/// Every other stage is healthy, HTTP/3 is on offer, and QUIC gets no reply.
pub open spec fn udp443_blocked(r: Report) -> bool {
    &&& summary::connects(r.tcp.probes@)
    &&& r.tls is Some
    &&& r.tls->0.verified
    &&& r.http is Some
    &&& r.http->0.status is Some
    &&& r.http->0.error is None
    &&& h3_advertised(r)
    &&& r.quic is Some
    &&& r.quic->0.outcome is Timeout
}

// ── What each rule says ─────────────────────────────────────────────────

/// A verdict without secondary findings and without a place.
pub open spec fn ruling(culprit: Culprit, headline: Headline, evidence: Seq<EvidenceView>) -> VerdictView {
    VerdictView { culprit, headline, evidence, secondary: Seq::empty(), zone_hint: None }
}

pub open spec fn failed_sources(r: Report) -> Seq<EvidenceView> {
    let list = summary::local_failures(r.dns.sources@);
    Seq::new(
        list.len(),
        |i: int| EvidenceView::LocalDnsSourceFailed { label: list[i].0, outcome: list[i].1 },
    )
}

/// How many days ago a certificate expired. The one number whose opposite does
/// not fit stays as it is.
pub open spec fn days_ago(days: Option<i64>) -> i64 {
    match days {
        Some(d) => if d == i64::MIN {
            d
        } else {
            (-d) as i64
        },
        None => 0,
    }
}

/// A text, or a question mark in its place.
pub open spec fn or_unknown(t: Option<String>) -> Seq<char> {
    match t {
        Some(t) => t@,
        None => "?"@,
    }
}

pub open spec fn invalid_cert_evidence(tls: TlsReport) -> Seq<EvidenceView> {
    seq![EvidenceView::ChainVerifyFailed { error: tls.error->0@ }] + (match tls.presented_issuer {
        Some(issuer) => seq![EvidenceView::PresentedIssuer { issuer: issuer@ }],
        None => Seq::empty(),
    }) + (if tls.hostname_matches == Some(false) {
        seq![EvidenceView::HostnameMismatch]
    } else {
        Seq::empty()
    })
}

/// The proxy variables as assignments.
pub open spec fn assignments(proxies: Seq<(String, String)>) -> Seq<Seq<char>> {
    Seq::new(proxies.len(), |i: int| proxies[i].0@ + "="@ + proxies[i].1@)
}

pub open spec fn unstable_evidence(r: Report) -> Seq<EvidenceView> {
    let path = r.path->0;
    (if lossy(r) {
        seq![EvidenceView::ProbeLoss { sent: path.sent, lost: path.lost, pct: path.loss_pct }]
    } else {
        Seq::empty()
    }) + (if path.avg_ms is Some && path.jitter_ms is Some {
        seq![EvidenceView::RttStats { avg: path.avg_ms->0, jitter: path.jitter_ms->0 }]
    } else {
        Seq::empty()
    }) + seq![EvidenceView::UnstablePathSymptom]
}

pub open spec fn or_zero(ms: Option<Millis>) -> Millis {
    match ms {
        Some(ms) => ms,
        None => Millis { nanos: 0 },
    }
}

pub open spec fn healthy_dns(r: Report) -> Seq<EvidenceView> {
    if summary::dns_ran(r.dns) && (summary::resolves(r.dns.sources@, true) || summary::resolves(
        r.dns.sources@,
        false,
    )) {
        seq![EvidenceView::DnsHealthy]
    } else {
        Seq::empty()
    }
}

pub open spec fn healthy_tcp(r: Report) -> Seq<EvidenceView> {
    let best = summary::best_connect(r.tcp.probes@);
    if summary::connects(r.tcp.probes@) && best is Some {
        seq![EvidenceView::TcpHealthy { ms: best->0 }]
    } else {
        Seq::empty()
    }
}

pub open spec fn healthy_tls(r: Report) -> Seq<EvidenceView> {
    if r.tls is Some && r.tls->0.verified {
        seq![
            EvidenceView::TlsHealthy {
                version: or_unknown(r.tls->0.version),
                days: match r.tls->0.days_until_expiry {
                    Some(d) => d,
                    None => 0,
                },
            },
        ]
    } else {
        Seq::empty()
    }
}

pub open spec fn healthy_http(r: Report) -> Seq<EvidenceView> {
    if r.http is Some && r.http->0.status is Some {
        seq![
            EvidenceView::HttpHealthy {
                status: r.http->0.status->0,
                ttfb: or_zero(r.http->0.ttfb_ms),
            },
        ]
    } else {
        Seq::empty()
    }
}

pub open spec fn healthy_path(r: Report) -> Seq<EvidenceView> {
    if r.path is Some {
        seq![
            EvidenceView::PathHealthy {
                loss_pct: r.path->0.loss_pct,
                jitter: or_zero(r.path->0.jitter_ms),
            },
        ]
    } else {
        Seq::empty()
    }
}

/// One item for every stage that is healthy.
pub open spec fn healthy_stages(r: Report) -> Seq<EvidenceView> {
    healthy_dns(r) + healthy_tcp(r) + healthy_tls(r) + healthy_http(r) + healthy_path(r)
}

pub open spec fn healthy_evidence(r: Report) -> Seq<EvidenceView> {
    if healthy_stages(r).len() == 0 {
        seq![EvidenceView::AllStagesOk]
    } else {
        healthy_stages(r)
    }
}

/// The ruling of the rules on names and connections, if one applies.
pub open spec fn reach_ruling(r: Report) -> Option<VerdictView> {
    if name_missing(r) {
        Some(
            ruling(
                Culprit::NameDoesNotExist,
                Headline::NameDoesNotExist { host: r.target.host },
                seq![EvidenceView::AllSourcesNxDomain, EvidenceView::PublicDnsAgrees],
            ),
        )
    } else if local_dns_dead(r) {
        Some(
            ruling(
                Culprit::LocalDnsBroken,
                Headline::LocalDnsBroken,
                seq![EvidenceView::PublicDnsResolves] + failed_sources(r),
            ),
        )
    } else if dns_dead(r) {
        Some(
            ruling(
                Culprit::TcpBlocked,
                Headline::OutboundDead,
                seq![EvidenceView::AllDnsUnresponsive, EvidenceView::OutboundBlockedSuspected],
            ),
        )
    } else if answers_mismatch(r) {
        Some(
            ruling(
                Culprit::DnsAnswerMismatch,
                Headline::DnsAnswerMismatch,
                seq![
                    EvidenceView::LocalDnsAnswers {
                        ips: summary::answer_list(r.dns.sources@, true),
                    },
                    EvidenceView::PublicDnsAnswers {
                        ips: summary::answer_list(r.dns.sources@, false),
                    },
                    EvidenceView::SplitHorizonSuspected,
                ],
            ),
        )
    } else if summary::all_refused(r.tcp.probes@) {
        Some(
            ruling(
                Culprit::ServerDown,
                Headline::ServerDown { port: r.target.port },
                seq![EvidenceView::AllConnectionsRefused, EvidenceView::HostReachable],
            ),
        )
    } else if summary::all_fail(r.tcp.probes@) {
        Some(
            ruling(
                Culprit::TcpBlocked,
                Headline::TcpBlocked { port: r.target.port },
                seq![EvidenceView::DnsOkTcpTimedOut, EvidenceView::FirewallOrDeadPath],
            ),
        )
    } else if ipv6_dead(r) {
        Some(
            ruling(
                Culprit::Ipv6Broken,
                Headline::Ipv6Broken,
                seq![
                    EvidenceView::Ipv6ConnectFailed {
                        count: summary::family_count(r.tcp.probes@, false, false) as usize,
                    },
                    EvidenceView::Ipv4Works,
                ],
            ),
        )
    } else {
        None
    }
}

/// The ruling of the rules on TLS, if one applies.
pub open spec fn tls_ruling(r: Report) -> Option<VerdictView> {
    if cert_expired(r) {
        Some(
            ruling(
                Culprit::TlsCertExpired,
                Headline::TlsCertExpired,
                seq![
                    EvidenceView::CertExpiredDaysAgo {
                        days: days_ago(r.tls->0.days_until_expiry),
                    },
                    EvidenceView::TcpFineSoPathOk,
                ],
            ),
        )
    } else if tls_intercepted(r) {
        Some(
            ruling(
                Culprit::TlsIntercepted,
                Headline::TlsIntercepted,
                seq![
                    EvidenceView::PresentedIssuer { issuer: or_unknown(r.tls->0.presented_issuer) },
                    EvidenceView::MiddleboxIssuer,
                ],
            ),
        )
    } else if tls_error(r) {
        Some(
            ruling(
                Culprit::TlsCertInvalid,
                Headline::TlsCertInvalid,
                invalid_cert_evidence(r.tls->0),
            ),
        )
    } else {
        None
    }
}

/// The ruling of the rules on how well a working connection works, if one applies.
pub open spec fn quality_ruling(r: Report) -> Option<VerdictView> {
    if proxy_fault(r) {
        Some(
            ruling(
                Culprit::ProxyInterference,
                Headline::ProxyInterference,
                seq![
                    EvidenceView::ProxyVarsDetected { vars: assignments(r.env.proxies@) },
                    EvidenceView::TcpOkHttpFailed,
                    EvidenceView::HttpErrorDetail { error: r.http->0.error->0@ },
                ],
            ),
        )
    } else if server_slow(r) {
        Some(
            ruling(
                Culprit::ServerSlow,
                Headline::ServerSlow,
                seq![
                    EvidenceView::ConnectFast { ms: summary::best_connect(r.tcp.probes@)->0 },
                    EvidenceView::TtfbSlow { ms: r.http->0.ttfb_ms->0 },
                    EvidenceView::ServerSideProcessing,
                ],
            ),
        )
    } else if lossy(r) || jittery(r) {
        Some(ruling(Culprit::UnstablePath, Headline::UnstablePath, unstable_evidence(r)))
    } else if large_packets_vanish(r) {
        Some(
            ruling(
                Culprit::PmtuBlackhole,
                Headline::PmtuBlackhole,
                seq![
                    EvidenceView::PmtuBlackholeObserved { mtu: blackhole_mtu(r)->0 },
                    EvidenceView::TcpFineSoPathOk,
                ],
            ),
        )
    } else if local_dns_slow(r) {
        Some(
            ruling(
                Culprit::LocalDnsSlow,
                Headline::LocalDnsSlow,
                seq![
                    EvidenceView::LocalDnsLatency {
                        ms: summary::best_latency(r.dns.sources@, true)->0,
                    },
                    EvidenceView::PublicDnsLatency {
                        ms: summary::best_latency(r.dns.sources@, false)->0,
                    },
                    EvidenceView::LatencyAddedEveryPage,
                ],
            ),
        )
    } else if udp443_blocked(r) {
        Some(
            ruling(
                Culprit::Udp443Blocked,
                Headline::Udp443Blocked,
                seq![
                    EvidenceView::Http3Advertised,
                    EvidenceView::QuicSilent,
                    EvidenceView::OtherStagesHealthy,
                ],
            ),
        )
    } else {
        None
    }
}

/// The ruling of the first rule that applies.
pub open spec fn primary(r: Report) -> VerdictView {
    match reach_ruling(r) {
        Some(v) => v,
        None => match tls_ruling(r) {
            Some(v) => v,
            None => match quality_ruling(r) {
                Some(v) => v,
                None => ruling(Culprit::NoProblem, Headline::NoProblem, healthy_evidence(r)),
            },
        },
    }
}

// ── What is said beside the ruling ──────────────────────────────────────

/// The failure lies somewhere on the path.
pub open spec fn path_related(c: Culprit) -> bool {
    c is TcpBlocked || c is ServerDown || c is UnstablePath
}

/// The hop that replied last, for a failure on the path.
pub open spec fn hop_evidence(r: Report, c: Culprit) -> Seq<EvidenceView> {
    match traced(r) {
        Some(data) => match trace::localized(data.hops@, data.dest_reached) {
            Some(loc) => if path_related(c) {
                seq![
                    EvidenceView::LastRespondingHop {
                        ip: loc.last_hop.shown(),
                        index: loc.last_index,
                        path_len: loc.path_len_estimate,
                    },
                ]
            } else {
                Seq::empty()
            },
            None => Seq::empty(),
        },
        None => Seq::empty(),
    }
}

/// The zone where a failure on the path lies. Where the destination replied, the
/// place where the replies end says nothing.
pub open spec fn zone_hint(r: Report, c: Culprit) -> Option<HopZone> {
    match traced(r) {
        Some(data) => match trace::localized(data.hops@, data.dest_reached) {
            Some(loc) => if path_related(c) && !data.dest_reached {
                Some(loc.zone)
            } else {
                None
            },
            None => None,
        },
        None => None,
    }
}

pub open spec fn proxy_names(proxies: Seq<(String, String)>) -> Seq<Seq<char>> {
    Seq::new(proxies.len(), |i: int| proxies[i].0@)
}

/// The findings that do not depend on the ruling.
pub open spec fn findings(r: Report) -> Seq<FindingView> {
    (match r.env.hosts_override {
        Some(ip) => seq![FindingView::HostsOverride { host: r.target.host@, ip: ip@ }],
        None => Seq::empty(),
    }) + (if r.env.proxies@.len() > 0 {
        seq![FindingView::ProxyEnvPresent { names: proxy_names(r.env.proxies@) }]
    } else {
        Seq::empty()
    }) + (if summary::disjoint(r.dns.sources@) && !connection_failed(r) {
        seq![
            FindingView::DnsAnswersDiffer {
                local: summary::answer_list(r.dns.sources@, true),
                public: summary::answer_list(r.dns.sources@, false),
            },
        ]
    } else {
        Seq::empty()
    }) + (match expires_soon(r) {
        Some(days) => seq![FindingView::CertExpiresSoon { days }],
        None => Seq::empty(),
    })
}

/// The days left of a valid certificate that expires soon.
pub open spec fn expires_soon(r: Report) -> Option<i64> {
    match r.tls {
        Some(tls) => match tls.days_until_expiry {
            Some(days) => if tls.verified && 0 <= days <= EXPIRY_NOTICE_DAYS {
                Some(days)
            } else {
                None
            },
            None => None,
        },
        None => None,
    }
}

/// What is wrong with QUIC, where that is not the ruling itself.
pub open spec fn quic_findings(r: Report, c: Culprit) -> Seq<FindingView> {
    if c is Udp443Blocked {
        Seq::empty()
    } else {
        match r.quic {
            Some(quic) => match quic.outcome {
                QuicOutcome::Established { .. } => Seq::empty(),
                QuicOutcome::Timeout => seq![
                    FindingView::QuicTimedOut { h3_advertised: h3_advertised(r) },
                ],
                QuicOutcome::HandshakeError(e) => seq![
                    FindingView::QuicHandshakeFailed { error: e@ },
                ],
                QuicOutcome::LocalError(e) => seq![FindingView::QuicLocalError { error: e@ }],
            },
            None => Seq::empty(),
        }
    }
}

// ── The rules ───────────────────────────────────────────────────────────

impl Verdict {
    fn new(culprit: Culprit, headline: Headline, evidence: Vec<Evidence>) -> (v: Self)
        ensures
            v@ == ruling(culprit, headline, verdict::evidence_views(evidence@)),
    {
        Verdict { culprit, headline, evidence, secondary: Vec::new(), zone_hint: None }
    }
}

/// The measurements of the trace, if it ran.
pub fn trace_data(report: &Report) -> (data: Option<&TraceData>)
    ensures
        match data {
            Some(data) => traced(*report) == Some(*data),
            None => traced(*report) is None,
        },
{
    match &report.trace {
        Some(TraceReport::Ran(data)) => Some(data),
        _ => None,
    }
}

fn tls_failed(report: &Report) -> (r: bool)
    ensures
        r == tls_error(*report),
{
    match &report.tls {
        Some(tls) => !tls.verified && tls.error.is_some(),
        None => false,
    }
}

fn copy_texts(list: &[String]) -> (v: Vec<String>)
    ensures
        text::texts(v@) == text::texts(list@),
{
    let mut v: Vec<String> = Vec::new();
    let mut i: usize = 0;
    while i < list.len()
        invariant
            i <= list.len(),
            v@.len() == i,
            forall|j: int| 0 <= j < i ==> (#[trigger] v@[j])@ == list@[j]@,
        decreases list.len() - i,
    {
        v.push(list[i].clone());
        i = i + 1;
    }
    v
}

fn judge_reach(report: &Report, d: &DnsView, t: &TcpView) -> (v: Option<Verdict>)
    requires
        d.sums_up(report.dns),
        t.sums_up(report.tcp),
    ensures
        match v {
            Some(v) => reach_ruling(*report) == Some(v@),
            None => reach_ruling(*report) is None,
        },
{
    if d.ran && d.all_nxdomain {
        let v = Verdict::new(
            Culprit::NameDoesNotExist,
            Headline::NameDoesNotExist { host: report.target.host.clone() },
            vec![Evidence::AllSourcesNxDomain, Evidence::PublicDnsAgrees],
        );
        assert(v@ =~= reach_ruling(*report)->0);
        return Some(v);
    }
    if d.ran && d.public_ok && !d.local_ok {
        let mut ev: Vec<Evidence> = vec![Evidence::PublicDnsResolves];
        let mut i: usize = 0;
        while i < d.local_failures.len()
            invariant
                i <= d.local_failures@.len(),
                d.sums_up(report.dns),
                verdict::evidence_views(ev@) == seq![EvidenceView::PublicDnsResolves]
                    + failed_sources(*report).take(i as int),
            decreases d.local_failures@.len() - i,
        {
            let ghost before = verdict::evidence_views(ev@);
            let failure = &d.local_failures[i];
            assert(summary::failure_views(d.local_failures@)[i as int] == (failure.0@, failure.1));
            let item = Evidence::LocalDnsSourceFailed {
                label: failure.0.clone(),
                outcome: failure.1.clone(),
            };
            ev.push(item);
            assert(verdict::evidence_views(ev@) == before.push(item@));
            i = i + 1;
        }
        assert(summary::failure_views(d.local_failures@).len() == d.local_failures@.len());
        assert(failed_sources(*report).take(failed_sources(*report).len() as int)
            == failed_sources(*report));
        return Some(Verdict::new(Culprit::LocalDnsBroken, Headline::LocalDnsBroken, ev));
    }
    if d.ran && !d.any_ok {
        let v = Verdict::new(
            Culprit::TcpBlocked,
            Headline::OutboundDead,
            vec![Evidence::AllDnsUnresponsive, Evidence::OutboundBlockedSuspected],
        );
        assert(v@ =~= reach_ruling(*report)->0);
        return Some(v);
    }
    if d.ran && d.answers_disjoint && (t.all_fail || tls_failed(report)) {
        let v = Verdict::new(
            Culprit::DnsAnswerMismatch,
            Headline::DnsAnswerMismatch,
            vec![
                Evidence::LocalDnsAnswers { ips: copy_texts(d.local_ips.as_slice()) },
                Evidence::PublicDnsAnswers { ips: copy_texts(d.public_ips.as_slice()) },
                Evidence::SplitHorizonSuspected,
            ],
        );
        assert(v@ =~= reach_ruling(*report)->0);
        return Some(v);
    }
    if t.all_fail {
        if t.all_refused {
            let v = Verdict::new(
                Culprit::ServerDown,
                Headline::ServerDown { port: report.target.port },
                vec![Evidence::AllConnectionsRefused, Evidence::HostReachable],
            );
            assert(v@ =~= reach_ruling(*report)->0);
            return Some(v);
        }
        let v = Verdict::new(
            Culprit::TcpBlocked,
            Headline::TcpBlocked { port: report.target.port },
            vec![Evidence::DnsOkTcpTimedOut, Evidence::FirewallOrDeadPath],
        );
        assert(v@ =~= reach_ruling(*report)->0);
        return Some(v);
    }
    if t.v6_total > 0 && t.v6_ok == 0 && t.v4_total > 0 && t.v4_ok > 0 {
        let v = Verdict::new(
            Culprit::Ipv6Broken,
            Headline::Ipv6Broken,
            vec![Evidence::Ipv6ConnectFailed { count: t.v6_total }, Evidence::Ipv4Works],
        );
        assert(v@ =~= reach_ruling(*report)->0);
        return Some(v);
    }
    None
}

/// The text, or a question mark in its place.
pub fn unknown_or(t: &Option<String>) -> (s: String)
    ensures
        s@ == or_unknown(*t),
{
    match t {
        Some(t) => t.clone(),
        None => "?".to_owned(),
    }
}

/// The opposite number, where it fits.
pub fn negated(days: i64) -> (r: i64)
    ensures
        r == days_ago(Some(days)),
{
    if days == i64::MIN {
        days
    } else {
        -days
    }
}

fn judge_tls(report: &Report) -> (v: Option<Verdict>)
    ensures
        match v {
            Some(v) => tls_ruling(*report) == Some(v@),
            None => tls_ruling(*report) is None,
        },
{
    let tls = match &report.tls {
        Some(tls) => tls,
        None => {
            return None;
        },
    };
    if tls.cert_expired {
        let days: i64 = match tls.days_until_expiry {
            Some(d) => negated(d),
            None => 0,
        };
        let v = Verdict::new(
            Culprit::TlsCertExpired,
            Headline::TlsCertExpired,
            vec![Evidence::CertExpiredDaysAgo { days }, Evidence::TcpFineSoPathOk],
        );
        assert(v@ =~= tls_ruling(*report)->0);
        return Some(v);
    }
    if tls.interception_suspected {
        let issuer = unknown_or(&tls.presented_issuer);
        let v = Verdict::new(
            Culprit::TlsIntercepted,
            Headline::TlsIntercepted,
            vec![Evidence::PresentedIssuer { issuer }, Evidence::MiddleboxIssuer],
        );
        assert(v@ =~= tls_ruling(*report)->0);
        return Some(v);
    }
    if tls.verified {
        return None;
    }
    let error = match &tls.error {
        Some(error) => error.clone(),
        None => {
            return None;
        },
    };
    let mut ev: Vec<Evidence> = vec![Evidence::ChainVerifyFailed { error }];
    if let Some(issuer) = &tls.presented_issuer {
        ev.push(Evidence::PresentedIssuer { issuer: issuer.clone() });
    }
    if let Some(false) = tls.hostname_matches {
        ev.push(Evidence::HostnameMismatch);
    }
    let v = Verdict::new(Culprit::TlsCertInvalid, Headline::TlsCertInvalid, ev);
    assert(v@.evidence =~= invalid_cert_evidence(*tls));
    Some(v)
}

fn assignments_of(proxies: &[(String, String)]) -> (vars: Vec<String>)
    ensures
        text::texts(vars@) == assignments(proxies@),
{
    let mut vars: Vec<String> = Vec::new();
    let mut i: usize = 0;
    while i < proxies.len()
        invariant
            i <= proxies.len(),
            vars@.len() == i,
            forall|j: int| 0 <= j < i ==> (#[trigger] vars@[j])@ == assignments(proxies@)[j],
        decreases proxies.len() - i,
    {
        let pair = &proxies[i];
        let mut s = pair.0.clone();
        s.append("=");
        s.append(pair.1.as_str());
        vars.push(s);
        i = i + 1;
    }
    vars
}

fn judge_quality(report: &Report, d: &DnsView, t: &TcpView) -> (v: Option<Verdict>)
    requires
        d.sums_up(report.dns),
        t.sums_up(report.tcp),
    ensures
        match v {
            Some(v) => quality_ruling(*report) == Some(v@),
            None => quality_ruling(*report) is None,
        },
{
    if let Some(http) = &report.http {
        if report.env.proxies.len() > 0 && t.any_ok && http.status.is_none() {
            if let Some(error) = &http.error {
                let v = Verdict::new(
                    Culprit::ProxyInterference,
                    Headline::ProxyInterference,
                    vec![
                        Evidence::ProxyVarsDetected {
                            vars: assignments_of(report.env.proxies.as_slice()),
                        },
                        Evidence::TcpOkHttpFailed,
                        Evidence::HttpErrorDetail { error: error.clone() },
                    ],
                );
                assert(v@ =~= quality_ruling(*report)->0);
                return Some(v);
            }
        }
        if let (Some(ttfb), Some(connect)) = (http.ttfb_ms, t.best_connect_ms) {
            if ttfb.is_over(SLOW_TTFB_MS) && connect.is_under(FAST_CONNECT_MS) {
                let v = Verdict::new(
                    Culprit::ServerSlow,
                    Headline::ServerSlow,
                    vec![
                        Evidence::ConnectFast { ms: connect },
                        Evidence::TtfbSlow { ms: ttfb },
                        Evidence::ServerSideProcessing,
                    ],
                );
                assert(v@ =~= quality_ruling(*report)->0);
                return Some(v);
            }
        }
    }
    if let Some(path) = &report.path {
        let heavy_loss = path.loss_pct.is_at_least(LOSS_PCT_THRESHOLD);
        let heavy_jitter = match path.jitter_ms {
            Some(j) => j.is_over(JITTER_MS_THRESHOLD),
            None => false,
        };
        if heavy_loss || heavy_jitter {
            let mut ev: Vec<Evidence> = Vec::new();
            if heavy_loss {
                ev.push(
                    Evidence::ProbeLoss { sent: path.sent, lost: path.lost, pct: path.loss_pct },
                );
            }
            if let (Some(avg), Some(jitter)) = (path.avg_ms, path.jitter_ms) {
                ev.push(Evidence::RttStats { avg, jitter });
            }
            ev.push(Evidence::UnstablePathSymptom);
            let v = Verdict::new(Culprit::UnstablePath, Headline::UnstablePath, ev);
            assert(v@.evidence =~= unstable_evidence(*report));
            return Some(v);
        }
    }
    if t.any_ok {
        if let Some(data) = trace_data(report) {
            let analysis = trace::analyze_mtu(data.kernel_mtu, data.mtu_probes.as_slice());
            if analysis.blackhole {
                if let Some(mtu) = analysis.path_mtu {
                    let v = Verdict::new(
                        Culprit::PmtuBlackhole,
                        Headline::PmtuBlackhole,
                        vec![Evidence::PmtuBlackholeObserved { mtu }, Evidence::TcpFineSoPathOk],
                    );
                    assert(v@ =~= quality_ruling(*report)->0);
                    return Some(v);
                }
            }
        }
    }
    if let (Some(local), Some(public)) = (d.local_best_ms, d.public_best_ms) {
        if local.is_over(SLOW_LOCAL_DNS_MS) && public.is_under(FAST_PUBLIC_DNS_MS) {
            let v = Verdict::new(
                Culprit::LocalDnsSlow,
                Headline::LocalDnsSlow,
                vec![
                    Evidence::LocalDnsLatency { ms: local },
                    Evidence::PublicDnsLatency { ms: public },
                    Evidence::LatencyAddedEveryPage,
                ],
            );
            assert(v@ =~= quality_ruling(*report)->0);
            return Some(v);
        }
    }
    if let (Some(tls), Some(http), Some(quic)) = (&report.tls, &report.http, &report.quic) {
        let http_fine = http.status.is_some() && http.error.is_none() && http.h3_advertised;
        let silent = matches!(quic.outcome, QuicOutcome::Timeout);
        if t.any_ok && tls.verified && http_fine && silent {
            let v = Verdict::new(
                Culprit::Udp443Blocked,
                Headline::Udp443Blocked,
                vec![
                    Evidence::Http3Advertised,
                    Evidence::QuicSilent,
                    Evidence::OtherStagesHealthy,
                ],
            );
            assert(v@ =~= quality_ruling(*report)->0);
            return Some(v);
        }
    }
    None
}

fn zero_or(ms: Option<Millis>) -> (r: Millis)
    ensures
        r == or_zero(ms),
{
    match ms {
        Some(ms) => ms,
        None => Millis { nanos: 0 },
    }
}

fn note_healthy_names(report: &Report, d: &DnsView, t: &TcpView) -> (ev: Vec<Evidence>)
    requires
        d.sums_up(report.dns),
        t.sums_up(report.tcp),
    ensures
        verdict::evidence_views(ev@) == healthy_dns(*report) + healthy_tcp(*report),
{
    let mut ev: Vec<Evidence> = Vec::new();
    if d.ran && d.any_ok {
        ev.push(Evidence::DnsHealthy);
    }
    if t.ran && t.any_ok {
        if let Some(ms) = t.best_connect_ms {
            ev.push(Evidence::TcpHealthy { ms });
        }
    }
    ev
}

fn note_healthy_tls(report: &Report, ev: &mut Vec<Evidence>)
    ensures
        verdict::evidence_views(final(ev)@) == verdict::evidence_views(old(ev)@) + healthy_tls(
            *report,
        ),
{
    if let Some(tls) = &report.tls {
        if tls.verified {
            let days: i64 = match tls.days_until_expiry {
                Some(d) => d,
                None => 0,
            };
            ev.push(Evidence::TlsHealthy { version: unknown_or(&tls.version), days });
        }
    }
}

fn note_healthy_http(report: &Report, ev: &mut Vec<Evidence>)
    ensures
        verdict::evidence_views(final(ev)@) == verdict::evidence_views(old(ev)@) + healthy_http(
            *report,
        ),
{
    if let Some(http) = &report.http {
        if let Some(status) = http.status {
            ev.push(Evidence::HttpHealthy { status, ttfb: zero_or(http.ttfb_ms) });
        }
    }
}

fn note_healthy_path(report: &Report, ev: &mut Vec<Evidence>)
    ensures
        verdict::evidence_views(final(ev)@) == verdict::evidence_views(old(ev)@) + healthy_path(
            *report,
        ),
{
    if let Some(path) = &report.path {
        ev.push(
            Evidence::PathHealthy { loss_pct: path.loss_pct, jitter: zero_or(path.jitter_ms) },
        );
    }
}

fn judge_healthy(report: &Report, d: &DnsView, t: &TcpView) -> (v: Verdict)
    requires
        d.sums_up(report.dns),
        t.sums_up(report.tcp),
    ensures
        v@ == ruling(Culprit::NoProblem, Headline::NoProblem, healthy_evidence(*report)),
{
    let mut ev = note_healthy_names(report, d, t);
    note_healthy_tls(report, &mut ev);
    note_healthy_http(report, &mut ev);
    note_healthy_path(report, &mut ev);
    assert(verdict::evidence_views(ev@).len() == ev@.len());
    if ev.len() == 0 {
        ev.push(Evidence::AllStagesOk);
        assert(verdict::evidence_views(ev@) =~= healthy_evidence(*report));
    }
    Verdict::new(Culprit::NoProblem, Headline::NoProblem, ev)
}

/// Applies the rules in the order of their priority.
pub fn judge_primary(report: &Report, d: &DnsView, t: &TcpView) -> (v: Verdict)
    requires
        d.sums_up(report.dns),
        t.sums_up(report.tcp),
    ensures
        v@ == primary(*report),
{
    if let Some(v) = judge_reach(report, d, t) {
        return v;
    }
    if let Some(v) = judge_tls(report) {
        return v;
    }
    if let Some(v) = judge_quality(report, d, t) {
        return v;
    }
    judge_healthy(report, d, t)
}

fn names_of(proxies: &[(String, String)]) -> (names: Vec<String>)
    ensures
        text::texts(names@) == proxy_names(proxies@),
{
    let mut names: Vec<String> = Vec::new();
    let mut i: usize = 0;
    while i < proxies.len()
        invariant
            i <= proxies.len(),
            names@.len() == i,
            forall|j: int| 0 <= j < i ==> (#[trigger] names@[j])@ == proxies@[j].0@,
        decreases proxies.len() - i,
    {
        let pair = &proxies[i];
        names.push(pair.0.clone());
        i = i + 1;
    }
    names
}

/// Gathers the findings that do not depend on the ruling.
pub fn collect_secondary(report: &Report, d: &DnsView, t: &TcpView) -> (list: Vec<Finding>)
    requires
        d.sums_up(report.dns),
        t.sums_up(report.tcp),
    ensures
        verdict::finding_views(list@) == findings(*report),
{
    let mut list: Vec<Finding> = Vec::new();
    if let Some(ip) = &report.env.hosts_override {
        list.push(Finding::HostsOverride { host: report.target.host.clone(), ip: ip.clone() });
    }
    if report.env.proxies.len() > 0 {
        list.push(Finding::ProxyEnvPresent { names: names_of(report.env.proxies.as_slice()) });
    }
    if d.answers_disjoint && !(t.all_fail || tls_failed(report)) {
        list.push(
            Finding::DnsAnswersDiffer {
                local: copy_texts(d.local_ips.as_slice()),
                public: copy_texts(d.public_ips.as_slice()),
            },
        );
    }
    if let Some(tls) = &report.tls {
        if tls.verified {
            if let Some(days) = tls.days_until_expiry {
                if 0 <= days && days <= EXPIRY_NOTICE_DAYS {
                    list.push(Finding::CertExpiresSoon { days });
                }
            }
        }
    }
    assert(verdict::finding_views(list@) =~= findings(*report));
    list
}

/// Adds what is wrong with QUIC, where that is not the ruling itself.
pub fn collect_quic(report: &Report, culprit: Culprit, list: &mut Vec<Finding>)
    ensures
        verdict::finding_views(final(list)@) == verdict::finding_views(old(list)@) + quic_findings(
            *report,
            culprit,
        ),
{
    if let Culprit::Udp443Blocked = culprit {
        return;
    }
    let advertised = match &report.http {
        Some(http) => http.h3_advertised,
        None => false,
    };
    if let Some(quic) = &report.quic {
        match &quic.outcome {
            QuicOutcome::Established { .. } => {},
            QuicOutcome::Timeout => {
                list.push(Finding::QuicTimedOut { h3_advertised: advertised });
            },
            QuicOutcome::HandshakeError(e) => {
                list.push(Finding::QuicHandshakeFailed { error: e.clone() });
            },
            QuicOutcome::LocalError(e) => {
                list.push(Finding::QuicLocalError { error: e.clone() });
            },
        }
    }
}

/// Adds where on the path a failure lies, as far as the trace shows it.
pub fn attach_trace_hint(report: &Report, verdict: &mut Verdict)
    ensures
        final(verdict).culprit == old(verdict).culprit,
        final(verdict).headline == old(verdict).headline,
        final(verdict).secondary == old(verdict).secondary,
        verdict::evidence_views(final(verdict).evidence@) == verdict::evidence_views(
            old(verdict).evidence@,
        ) + hop_evidence(*report, old(verdict).culprit),
        final(verdict).zone_hint == match zone_hint(*report, old(verdict).culprit) {
            Some(zone) => Some(zone),
            None => old(verdict).zone_hint,
        },
{
    let related = match verdict.culprit {
        Culprit::TcpBlocked => true,
        Culprit::ServerDown => true,
        Culprit::UnstablePath => true,
        _ => false,
    };
    if !related {
        return;
    }
    if let Some(data) = trace_data(report) {
        if let Some(loc) = trace::localize_failure(data.hops.as_slice(), data.dest_reached) {
            verdict.evidence.push(
                Evidence::LastRespondingHop {
                    ip: loc.last_hop.to_text(),
                    index: loc.last_index,
                    path_len: loc.path_len_estimate,
                },
            );
            if !data.dest_reached {
                verdict.zone_hint = Some(loc.zone);
            }
        }
    }
}

} // verus!
