//! The verdict engine: a pure function from a report to the most likely culprit,
//! with its grounds. Verdicts are free of any language; `render` puts them into
//! words.

pub mod laws;
pub mod meaning;
pub mod rules;
pub mod summary;

pub use crate::verdict::rules::JITTER_MS_THRESHOLD;

use crate::i18n;
use crate::i18n::ruling;
use crate::i18n::Lang;
use crate::measure::{Millis, Percent};
use crate::probe::trace::HopZone;
use crate::report::{DnsOutcome, Report};
use crate::text;
use crate::verdict::summary::{DnsView, TcpView};
use vstd::prelude::*;

verus! {

/// Who is to blame.
#[derive(Debug, Clone, Copy, PartialEq, Eq, Structural)]
pub enum Culprit {
    /// The local DNS is dead, while public DNS works.
    LocalDnsBroken,
    /// The local DNS is slow.
    LocalDnsSlow,
    /// Local and public DNS give different answers.
    DnsAnswerMismatch,
    /// The name does not exist: the network is innocent.
    NameDoesNotExist,
    /// TCP connections time out.
    TcpBlocked,
    /// The IPv6 path is broken, while IPv4 works.
    Ipv6Broken,
    /// The TLS certificate has expired.
    TlsCertExpired,
    /// The TLS certificate is not valid.
    TlsCertInvalid,
    /// A middlebox seems to intercept TLS.
    TlsIntercepted,
    /// A proxy seems to interfere.
    ProxyInterference,
    /// The path loses packets or is jittery.
    UnstablePath,
    /// The path limits the MTU and does not say so.
    PmtuBlackhole,
    /// UDP port 443 is blocked, so that HTTP/3 fails.
    Udp443Blocked,
    /// The server answers slowly, while the network is fine.
    ServerSlow,
    /// The server is down or its port is closed.
    ServerDown,
    /// Nothing is wrong.
    NoProblem,
}

impl Culprit {
    /// The machine-readable name of the culprit.
    pub open spec fn name(self) -> Seq<char> {
        match self {
            Culprit::LocalDnsBroken => "local_dns_broken"@,
            Culprit::LocalDnsSlow => "local_dns_slow"@,
            Culprit::DnsAnswerMismatch => "dns_answer_mismatch"@,
            Culprit::NameDoesNotExist => "name_does_not_exist"@,
            Culprit::TcpBlocked => "tcp_blocked"@,
            Culprit::Ipv6Broken => "ipv6_broken"@,
            Culprit::TlsCertExpired => "tls_cert_expired"@,
            Culprit::TlsCertInvalid => "tls_cert_invalid"@,
            Culprit::TlsIntercepted => "tls_intercepted"@,
            Culprit::ProxyInterference => "proxy_interference"@,
            Culprit::UnstablePath => "unstable_path"@,
            Culprit::PmtuBlackhole => "pmtu_blackhole"@,
            Culprit::Udp443Blocked => "udp443_blocked"@,
            Culprit::ServerSlow => "server_slow"@,
            Culprit::ServerDown => "server_down"@,
            Culprit::NoProblem => "no_problem"@,
        }
    }

    /// The machine-readable name of the culprit.
    pub fn code(self) -> (s: &'static str)
        ensures
            s@ == self.name(),
    {
        match self {
            Culprit::LocalDnsBroken => "local_dns_broken",
            Culprit::LocalDnsSlow => "local_dns_slow",
            Culprit::DnsAnswerMismatch => "dns_answer_mismatch",
            Culprit::NameDoesNotExist => "name_does_not_exist",
            Culprit::TcpBlocked => "tcp_blocked",
            Culprit::Ipv6Broken => "ipv6_broken",
            Culprit::TlsCertExpired => "tls_cert_expired",
            Culprit::TlsCertInvalid => "tls_cert_invalid",
            Culprit::TlsIntercepted => "tls_intercepted",
            Culprit::ProxyInterference => "proxy_interference",
            Culprit::UnstablePath => "unstable_path",
            Culprit::PmtuBlackhole => "pmtu_blackhole",
            Culprit::Udp443Blocked => "udp443_blocked",
            Culprit::ServerSlow => "server_slow",
            Culprit::ServerDown => "server_down",
            Culprit::NoProblem => "no_problem",
        }
    }
}

/// What the verdict line is about: the culprit, with its parameters. A dead
/// outbound path and a blocked port share the culprit and differ here.
#[derive(Debug, Clone, PartialEq)]
pub enum Headline {
    NameDoesNotExist { host: String },
    LocalDnsBroken,
    LocalDnsSlow,
    OutboundDead,
    DnsAnswerMismatch,
    ServerDown { port: u16 },
    TcpBlocked { port: u16 },
    Ipv6Broken,
    TlsCertExpired,
    TlsIntercepted,
    TlsCertInvalid,
    ProxyInterference,
    ServerSlow,
    UnstablePath,
    PmtuBlackhole,
    Udp443Blocked,
    NoProblem,
}

/// One item of the grounds of a verdict.
#[derive(Debug, Clone, PartialEq)]
pub enum Evidence {
    AllSourcesNxDomain,
    PublicDnsAgrees,
    PublicDnsResolves,
    LocalDnsSourceFailed { label: String, outcome: DnsOutcome },
    AllDnsUnresponsive,
    OutboundBlockedSuspected,
    LocalDnsAnswers { ips: Vec<String> },
    PublicDnsAnswers { ips: Vec<String> },
    SplitHorizonSuspected,
    AllConnectionsRefused,
    HostReachable,
    DnsOkTcpTimedOut,
    FirewallOrDeadPath,
    Ipv6ConnectFailed { count: usize },
    Ipv4Works,
    CertExpiredDaysAgo { days: i64 },
    TcpFineSoPathOk,
    PresentedIssuer { issuer: String },
    MiddleboxIssuer,
    ChainVerifyFailed { error: String },
    HostnameMismatch,
    ProxyVarsDetected { vars: Vec<String> },
    TcpOkHttpFailed,
    HttpErrorDetail { error: String },
    ConnectFast { ms: Millis },
    TtfbSlow { ms: Millis },
    ServerSideProcessing,
    ProbeLoss { sent: u32, lost: u32, pct: Percent },
    RttStats { avg: Millis, jitter: Millis },
    UnstablePathSymptom,
    LocalDnsLatency { ms: Millis },
    PublicDnsLatency { ms: Millis },
    LatencyAddedEveryPage,
    Http3Advertised,
    QuicSilent,
    OtherStagesHealthy,
    DnsHealthy,
    TcpHealthy { ms: Millis },
    TlsHealthy { version: String, days: i64 },
    HttpHealthy { status: u16, ttfb: Millis },
    PathHealthy { loss_pct: Percent, jitter: Millis },
    AllStagesOk,
    LastRespondingHop { ip: String, index: u8, path_len: u8 },
    PmtuBlackholeObserved { mtu: u16 },
}

/// The contents of an item of [`Evidence`].
#[verifier::ext_equal]
pub enum EvidenceView {
    AllSourcesNxDomain,
    PublicDnsAgrees,
    PublicDnsResolves,
    LocalDnsSourceFailed { label: Seq<char>, outcome: DnsOutcome },
    AllDnsUnresponsive,
    OutboundBlockedSuspected,
    LocalDnsAnswers { ips: Seq<Seq<char>> },
    PublicDnsAnswers { ips: Seq<Seq<char>> },
    SplitHorizonSuspected,
    AllConnectionsRefused,
    HostReachable,
    DnsOkTcpTimedOut,
    FirewallOrDeadPath,
    Ipv6ConnectFailed { count: usize },
    Ipv4Works,
    CertExpiredDaysAgo { days: i64 },
    TcpFineSoPathOk,
    PresentedIssuer { issuer: Seq<char> },
    MiddleboxIssuer,
    ChainVerifyFailed { error: Seq<char> },
    HostnameMismatch,
    ProxyVarsDetected { vars: Seq<Seq<char>> },
    TcpOkHttpFailed,
    HttpErrorDetail { error: Seq<char> },
    ConnectFast { ms: Millis },
    TtfbSlow { ms: Millis },
    ServerSideProcessing,
    ProbeLoss { sent: u32, lost: u32, pct: Percent },
    RttStats { avg: Millis, jitter: Millis },
    UnstablePathSymptom,
    LocalDnsLatency { ms: Millis },
    PublicDnsLatency { ms: Millis },
    LatencyAddedEveryPage,
    Http3Advertised,
    QuicSilent,
    OtherStagesHealthy,
    DnsHealthy,
    TcpHealthy { ms: Millis },
    TlsHealthy { version: Seq<char>, days: i64 },
    HttpHealthy { status: u16, ttfb: Millis },
    PathHealthy { loss_pct: Percent, jitter: Millis },
    AllStagesOk,
    LastRespondingHop { ip: Seq<char>, index: u8, path_len: u8 },
    PmtuBlackholeObserved { mtu: u16 },
}

impl View for Evidence {
    type V = EvidenceView;

    open spec fn view(&self) -> EvidenceView {
        match self {
            Evidence::AllSourcesNxDomain => EvidenceView::AllSourcesNxDomain,
            Evidence::PublicDnsAgrees => EvidenceView::PublicDnsAgrees,
            Evidence::PublicDnsResolves => EvidenceView::PublicDnsResolves,
            Evidence::LocalDnsSourceFailed { label, outcome } => EvidenceView::LocalDnsSourceFailed { label: label@, outcome: *outcome },
            Evidence::AllDnsUnresponsive => EvidenceView::AllDnsUnresponsive,
            Evidence::OutboundBlockedSuspected => EvidenceView::OutboundBlockedSuspected,
            Evidence::LocalDnsAnswers { ips } => EvidenceView::LocalDnsAnswers { ips: text::texts(ips@) },
            Evidence::PublicDnsAnswers { ips } => EvidenceView::PublicDnsAnswers { ips: text::texts(ips@) },
            Evidence::SplitHorizonSuspected => EvidenceView::SplitHorizonSuspected,
            Evidence::AllConnectionsRefused => EvidenceView::AllConnectionsRefused,
            Evidence::HostReachable => EvidenceView::HostReachable,
            Evidence::DnsOkTcpTimedOut => EvidenceView::DnsOkTcpTimedOut,
            Evidence::FirewallOrDeadPath => EvidenceView::FirewallOrDeadPath,
            Evidence::Ipv6ConnectFailed { count } => EvidenceView::Ipv6ConnectFailed { count: *count },
            Evidence::Ipv4Works => EvidenceView::Ipv4Works,
            Evidence::CertExpiredDaysAgo { days } => EvidenceView::CertExpiredDaysAgo { days: *days },
            Evidence::TcpFineSoPathOk => EvidenceView::TcpFineSoPathOk,
            Evidence::PresentedIssuer { issuer } => EvidenceView::PresentedIssuer { issuer: issuer@ },
            Evidence::MiddleboxIssuer => EvidenceView::MiddleboxIssuer,
            Evidence::ChainVerifyFailed { error } => EvidenceView::ChainVerifyFailed { error: error@ },
            Evidence::HostnameMismatch => EvidenceView::HostnameMismatch,
            Evidence::ProxyVarsDetected { vars } => EvidenceView::ProxyVarsDetected { vars: text::texts(vars@) },
            Evidence::TcpOkHttpFailed => EvidenceView::TcpOkHttpFailed,
            Evidence::HttpErrorDetail { error } => EvidenceView::HttpErrorDetail { error: error@ },
            Evidence::ConnectFast { ms } => EvidenceView::ConnectFast { ms: *ms },
            Evidence::TtfbSlow { ms } => EvidenceView::TtfbSlow { ms: *ms },
            Evidence::ServerSideProcessing => EvidenceView::ServerSideProcessing,
            Evidence::ProbeLoss { sent, lost, pct } => EvidenceView::ProbeLoss { sent: *sent, lost: *lost, pct: *pct },
            Evidence::RttStats { avg, jitter } => EvidenceView::RttStats { avg: *avg, jitter: *jitter },
            Evidence::UnstablePathSymptom => EvidenceView::UnstablePathSymptom,
            Evidence::LocalDnsLatency { ms } => EvidenceView::LocalDnsLatency { ms: *ms },
            Evidence::PublicDnsLatency { ms } => EvidenceView::PublicDnsLatency { ms: *ms },
            Evidence::LatencyAddedEveryPage => EvidenceView::LatencyAddedEveryPage,
            Evidence::Http3Advertised => EvidenceView::Http3Advertised,
            Evidence::QuicSilent => EvidenceView::QuicSilent,
            Evidence::OtherStagesHealthy => EvidenceView::OtherStagesHealthy,
            Evidence::DnsHealthy => EvidenceView::DnsHealthy,
            Evidence::TcpHealthy { ms } => EvidenceView::TcpHealthy { ms: *ms },
            Evidence::TlsHealthy { version, days } => EvidenceView::TlsHealthy { version: version@, days: *days },
            Evidence::HttpHealthy { status, ttfb } => EvidenceView::HttpHealthy { status: *status, ttfb: *ttfb },
            Evidence::PathHealthy { loss_pct, jitter } => EvidenceView::PathHealthy { loss_pct: *loss_pct, jitter: *jitter },
            Evidence::AllStagesOk => EvidenceView::AllStagesOk,
            Evidence::LastRespondingHop { ip, index, path_len } => EvidenceView::LastRespondingHop { ip: ip@, index: *index, path_len: *path_len },
            Evidence::PmtuBlackholeObserved { mtu } => EvidenceView::PmtuBlackholeObserved { mtu: *mtu },
        }
    }
}

/// One secondary finding.
#[derive(Debug, Clone, PartialEq)]
pub enum Finding {
    HostsOverride { host: String, ip: String },
    ProxyEnvPresent { names: Vec<String> },
    DnsAnswersDiffer { local: Vec<String>, public: Vec<String> },
    CertExpiresSoon { days: i64 },
    /// The QUIC handshake timed out.
    QuicTimedOut { h3_advertised: bool },
    /// The server answered, but the QUIC negotiation failed.
    QuicHandshakeFailed { error: String },
    /// The QUIC probe failed on this machine.
    QuicLocalError { error: String },
}

/// The contents of an item of [`Finding`].
#[verifier::ext_equal]
pub enum FindingView {
    HostsOverride { host: Seq<char>, ip: Seq<char> },
    ProxyEnvPresent { names: Seq<Seq<char>> },
    DnsAnswersDiffer { local: Seq<Seq<char>>, public: Seq<Seq<char>> },
    CertExpiresSoon { days: i64 },
    QuicTimedOut { h3_advertised: bool },
    QuicHandshakeFailed { error: Seq<char> },
    QuicLocalError { error: Seq<char> },
}

impl View for Finding {
    type V = FindingView;

    open spec fn view(&self) -> FindingView {
        match self {
            Finding::HostsOverride { host, ip } => FindingView::HostsOverride { host: host@, ip: ip@ },
            Finding::ProxyEnvPresent { names } => FindingView::ProxyEnvPresent { names: text::texts(names@) },
            Finding::DnsAnswersDiffer { local, public } => FindingView::DnsAnswersDiffer { local: text::texts(local@), public: text::texts(public@) },
            Finding::CertExpiresSoon { days } => FindingView::CertExpiresSoon { days: *days },
            Finding::QuicTimedOut { h3_advertised } => FindingView::QuicTimedOut { h3_advertised: *h3_advertised },
            Finding::QuicHandshakeFailed { error } => FindingView::QuicHandshakeFailed { error: error@ },
            Finding::QuicLocalError { error } => FindingView::QuicLocalError { error: error@ },
        }
    }
}

/// The verdict, free of any language.
#[derive(Debug, Clone)]
pub struct Verdict {
    pub culprit: Culprit,
    pub headline: Headline,
    pub evidence: Vec<Evidence>,
    pub secondary: Vec<Finding>,
    /// Where on the path the failure lies, as far as the trace shows it.
    pub zone_hint: Option<HopZone>,
}

/// The contents of a [`Verdict`].
#[verifier::ext_equal]
pub struct VerdictView {
    pub culprit: Culprit,
    pub headline: Headline,
    pub evidence: Seq<EvidenceView>,
    pub secondary: Seq<FindingView>,
    pub zone_hint: Option<HopZone>,
}

pub open spec fn evidence_views(list: Seq<Evidence>) -> Seq<EvidenceView> {
    Seq::new(list.len(), |i: int| list[i]@)
}

pub open spec fn finding_views(list: Seq<Finding>) -> Seq<FindingView> {
    Seq::new(list.len(), |i: int| list[i]@)
}

impl View for Verdict {
    type V = VerdictView;

    open spec fn view(&self) -> VerdictView {
        VerdictView {
            culprit: self.culprit,
            headline: self.headline,
            evidence: evidence_views(self.evidence@),
            secondary: finding_views(self.secondary@),
            zone_hint: self.zone_hint,
        }
    }
}

/// The verdict in words, in one language.
#[derive(Debug, Clone)]
pub struct RenderedVerdict {
    pub culprit: Culprit,
    /// The machine-readable name of the culprit, such as `no_problem`.
    pub culprit_code: &'static str,
    pub headline: String,
    pub evidence: Vec<String>,
    pub next_step: String,
    pub secondary: Vec<String>,
}

/// The next step, with guidance where the place of the failure is known.
pub open spec fn advice(lang: Lang, h: Headline, zone: Option<HopZone>) -> Seq<char> {
    match zone {
        Some(zone) => ruling::next_step_text(lang, h) + " — "@ + ruling::zone_guidance_text(
            lang,
            zone,
        ),
        None => ruling::next_step_text(lang, h),
    }
}

pub open spec fn evidence_texts(lang: Lang, list: Seq<EvidenceView>) -> Seq<Seq<char>> {
    Seq::new(list.len(), |i: int| ruling::evidence_text(lang, list[i]))
}

pub open spec fn finding_texts(lang: Lang, list: Seq<FindingView>) -> Seq<Seq<char>> {
    Seq::new(list.len(), |i: int| ruling::finding_text(lang, list[i]))
}

impl RenderedVerdict {
    /// These are the words for the verdict.
    pub open spec fn renders(self, v: VerdictView, lang: Lang) -> bool {
        &&& self.culprit == v.culprit
        &&& self.culprit_code@ == v.culprit.name()
        &&& self.headline@ == ruling::headline_text(lang, v.headline)
        &&& text::texts(self.evidence@) == evidence_texts(lang, v.evidence)
        &&& self.next_step@ == advice(lang, v.headline, v.zone_hint)
        &&& text::texts(self.secondary@) == finding_texts(lang, v.secondary)
    }
}

fn evidence_lines(lang: Lang, list: &[Evidence]) -> (lines: Vec<String>)
    ensures
        text::texts(lines@) == evidence_texts(lang, evidence_views(list@)),
{
    let mut lines: Vec<String> = Vec::new();
    let mut i: usize = 0;
    while i < list.len()
        invariant
            i <= list.len(),
            lines@.len() == i,
            forall|j: int|
                0 <= j < i ==> (#[trigger] lines@[j])@ == ruling::evidence_text(lang, list@[j]@),
        decreases list.len() - i,
    {
        lines.push(i18n::evidence_line(lang, &list[i]));
        i = i + 1;
    }
    lines
}

fn finding_lines(lang: Lang, list: &[Finding]) -> (lines: Vec<String>)
    ensures
        text::texts(lines@) == finding_texts(lang, finding_views(list@)),
{
    let mut lines: Vec<String> = Vec::new();
    let mut i: usize = 0;
    while i < list.len()
        invariant
            i <= list.len(),
            lines@.len() == i,
            forall|j: int|
                0 <= j < i ==> (#[trigger] lines@[j])@ == ruling::finding_text(lang, list@[j]@),
        decreases list.len() - i,
    {
        lines.push(i18n::finding_line(lang, &list[i]));
        i = i + 1;
    }
    lines
}

impl Verdict {
    /// Puts the verdict into words.
    pub fn render(&self, lang: Lang) -> (r: RenderedVerdict)
        ensures
            r.renders(self@, lang),
    {
        let base = i18n::next_step(lang, &self.headline);
        let next_step = match self.zone_hint {
            Some(zone) => i18n::append_guidance(base, i18n::zone_guidance(lang, zone)),
            None => base.to_owned(),
        };
        RenderedVerdict {
            culprit: self.culprit,
            culprit_code: self.culprit.code(),
            headline: i18n::headline(lang, &self.headline),
            evidence: evidence_lines(lang, self.evidence.as_slice()),
            next_step,
            secondary: finding_lines(lang, self.secondary.as_slice()),
        }
    }
}

/// The verdict on a report: the ruling of the first rule that applies, the place
/// of the failure where a trace shows it, and the secondary findings.
pub open spec fn judgement(r: Report) -> VerdictView {
    let p = rules::primary(r);
    VerdictView {
        culprit: p.culprit,
        headline: p.headline,
        evidence: p.evidence + rules::hop_evidence(r, p.culprit),
        secondary: rules::findings(r) + rules::quic_findings(r, p.culprit),
        zone_hint: rules::zone_hint(r, p.culprit),
    }
}

/// Names the culprit.
pub fn judge(report: &Report) -> (v: Verdict)
    ensures
        v@ == judgement(*report),
{
    let d = DnsView::from(&report.dns);
    let t = TcpView::from(&report.tcp);
    let mut verdict = rules::judge_primary(report, &d, &t);
    let mut secondary = rules::collect_secondary(report, &d, &t);
    rules::collect_quic(report, verdict.culprit, &mut secondary);
    verdict.secondary = secondary;
    rules::attach_trace_hint(report, &mut verdict);
    verdict
}

} // verus!
