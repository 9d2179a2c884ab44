//! What the stages, the verdict and a diagnosis that was cut short show on the
//! screen, line by line.

pub mod laws;

use crate::addr;
use crate::i18n;
use crate::i18n::{Lang, MsgKey};
use crate::measure;
use crate::probe::trace;
use crate::report::{
    Completeness, DnsOutcome, DnsReport, DnsSourceResult, EnvReport, HttpReport, PathReport,
    QuicOutcome, QuicReport, StageName, TcpOutcome, TcpProbe, TcpReport, TlsReport, TraceData,
    TraceHop, TraceReport,
};
use crate::text;
use crate::verdict::rules;
use crate::verdict::rules::{EXPIRY_NOTICE_DAYS, JITTER_MS_THRESHOLD, LOSS_PCT_THRESHOLD};
use crate::verdict::{Culprit, RenderedVerdict};
use vstd::prelude::*;

verus! {

/// One line of the output.
#[derive(Debug, Clone, PartialEq)]
pub enum Line {
    /// The heading of a stage.
    Section(MsgKey),
    /// All is well.
    Good(String),
    /// Something to look at.
    Warn(String),
    /// Something failed.
    Bad(String),
    /// A line without a mark.
    Plain(String),
}

/// The contents of a [`Line`].
#[verifier::ext_equal]
pub enum LineView {
    Section(MsgKey),
    Good(Seq<char>),
    Warn(Seq<char>),
    Bad(Seq<char>),
    Plain(Seq<char>),
}

impl View for Line {
    type V = LineView;

    open spec fn view(&self) -> LineView {
        match self {
            Line::Section(key) => LineView::Section(*key),
            Line::Good(s) => LineView::Good(s@),
            Line::Warn(s) => LineView::Warn(s@),
            Line::Bad(s) => LineView::Bad(s@),
            Line::Plain(s) => LineView::Plain(s@),
        }
    }
}

pub open spec fn views(list: Seq<Line>) -> Seq<LineView> {
    Seq::new(list.len(), |i: int| list[i]@)
}

fn fixed(lang: Lang, key: MsgKey) -> (s: String)
    ensures
        s@ == i18n::msg_text(lang, key),
{
    i18n::msg(lang, key).to_owned()
}

// ── Environment ─────────────────────────────────────────────────────────

pub open spec fn nameserver_line(lang: Lang, env: EnvReport) -> LineView {
    if env.nameservers@.len() == 0 {
        LineView::Warn(i18n::msg_text(lang, MsgKey::NoNameservers))
    } else {
        LineView::Good(
            i18n::nameservers_text(lang, text::join(addr::ip_texts(env.nameservers@), ", "@)),
        )
    }
}

pub open spec fn search_domain_lines(lang: Lang, env: EnvReport) -> Seq<LineView> {
    if env.search_domains@.len() == 0 {
        Seq::empty()
    } else {
        seq![
            LineView::Good(
                i18n::search_domains_text(
                    lang,
                    text::join(text::texts(env.search_domains@), ", "@),
                ),
            ),
        ]
    }
}

pub open spec fn hosts_line(lang: Lang, host: Seq<char>, env: EnvReport) -> LineView {
    match env.hosts_override {
        Some(ip) => LineView::Warn(i18n::hosts_override_text(lang, host, ip@)),
        None => LineView::Good(i18n::msg_text(lang, MsgKey::HostsNoOverride)),
    }
}

pub open spec fn proxy_lines(lang: Lang, env: EnvReport) -> Seq<LineView> {
    if env.proxies@.len() == 0 {
        seq![LineView::Good(i18n::msg_text(lang, MsgKey::NoProxyVars))]
    } else {
        Seq::new(
            env.proxies@.len(),
            |i: int|
                LineView::Warn(
                    i18n::proxy_detected_text(lang, env.proxies@[i].0@, env.proxies@[i].1@),
                ),
        )
    }
}

pub open spec fn env_shown(lang: Lang, host: Seq<char>, env: EnvReport) -> Seq<LineView> {
    seq![nameserver_line(lang, env)] + search_domain_lines(lang, env) + seq![
        hosts_line(lang, host, env),
    ] + proxy_lines(lang, env)
}

fn add_proxies(lang: Lang, env: &EnvReport, lines: &mut Vec<Line>)
    ensures
        views(final(lines)@) == views(old(lines)@) + proxy_lines(lang, *env),
{
    if env.proxies.len() == 0 {
        lines.push(Line::Good(fixed(lang, MsgKey::NoProxyVars)));
        return;
    }
    let ghost before = views(lines@);
    let mut i: usize = 0;
    while i < env.proxies.len()
        invariant
            i <= env.proxies@.len(),
            env.proxies@.len() > 0,
            views(lines@) == before + proxy_lines(lang, *env).take(i as int),
        decreases env.proxies@.len() - i,
    {
        let ghost now = views(lines@);
        let pair = &env.proxies[i];
        let line = Line::Warn(
            i18n::proxy_detected_line(lang, pair.0.as_str(), pair.1.as_str()),
        );
        lines.push(line);
        assert(views(lines@) == now.push(line@));
        i = i + 1;
    }
    assert(proxy_lines(lang, *env).take(env.proxies@.len() as int) == proxy_lines(lang, *env));
}

/// What the environment stage shows.
pub fn env_lines(lang: Lang, host: &str, env: &EnvReport) -> (lines: Vec<Line>)
    ensures
        views(lines@) == env_shown(lang, host@, *env),
{
    let mut lines: Vec<Line> = Vec::new();
    if env.nameservers.len() == 0 {
        lines.push(Line::Warn(fixed(lang, MsgKey::NoNameservers)));
    } else {
        let list = addr::list_ips(env.nameservers.as_slice());
        lines.push(Line::Good(i18n::nameservers_line(lang, list.as_str())));
    }
    assert(views(lines@) == seq![nameserver_line(lang, *env)]);
    if env.search_domains.len() > 0 {
        let list = text::join_texts(env.search_domains.as_slice(), ", ");
        lines.push(Line::Good(i18n::search_domains_line(lang, list.as_str())));
    }
    assert(views(lines@) == seq![nameserver_line(lang, *env)] + search_domain_lines(lang, *env));
    match &env.hosts_override {
        Some(ip) => lines.push(Line::Warn(i18n::hosts_override_line(lang, host, ip.as_str()))),
        None => lines.push(Line::Good(fixed(lang, MsgKey::HostsNoOverride))),
    }
    assert(views(lines@) == seq![nameserver_line(lang, *env)] + search_domain_lines(lang, *env)
        + seq![hosts_line(lang, host@, *env)]);
    add_proxies(lang, env, &mut lines);
    lines
}

// ── DNS ─────────────────────────────────────────────────────────────────

pub open spec fn source_shown(lang: Lang, s: DnsSourceResult) -> LineView {
    match s.outcome {
        DnsOutcome::Resolved => LineView::Good(
            i18n::dns_ok_text(
                lang,
                s.label@,
                s.ips@.len() as usize,
                measure::ms_text(s.latency_ms),
                text::join(addr::ip_texts(s.ips@), ", "@),
            ),
        ),
        DnsOutcome::NxDomain => LineView::Bad(i18n::dns_nxdomain_text(lang, s.label@)),
        DnsOutcome::ServFail => LineView::Bad(i18n::dns_servfail_text(s.label@)),
        DnsOutcome::Timeout => LineView::Bad(i18n::dns_timeout_text(lang, s.label@)),
        DnsOutcome::Error(e) => LineView::Bad(i18n::dns_error_text(s.label@, e@)),
    }
}

pub open spec fn dns_shown(lang: Lang, dns: DnsReport) -> Seq<LineView> {
    if dns.skipped {
        seq![LineView::Good(i18n::msg_text(lang, MsgKey::DnsSkippedIpLiteral))]
    } else {
        Seq::new(dns.sources@.len(), |i: int| source_shown(lang, dns.sources@[i]))
    }
}

fn source_line(lang: Lang, s: &DnsSourceResult) -> (line: Line)
    ensures
        line@ == source_shown(lang, *s),
{
    let label = s.label.as_str();
    match &s.outcome {
        DnsOutcome::Resolved => {
            let ms = measure::fmt_ms(s.latency_ms);
            let list = addr::list_ips(s.ips.as_slice());
            Line::Good(i18n::dns_ok_line(lang, label, s.ips.len(), ms.as_str(), list.as_str()))
        },
        DnsOutcome::NxDomain => Line::Bad(i18n::dns_nxdomain_line(lang, label)),
        DnsOutcome::ServFail => Line::Bad(i18n::dns_servfail_line(lang, label)),
        DnsOutcome::Timeout => Line::Bad(i18n::dns_timeout_line(lang, label)),
        DnsOutcome::Error(e) => Line::Bad(i18n::dns_error_line(lang, label, e.as_str())),
    }
}

/// What the DNS stage shows.
pub fn dns_lines(lang: Lang, dns: &DnsReport) -> (lines: Vec<Line>)
    ensures
        views(lines@) == dns_shown(lang, *dns),
{
    let mut lines: Vec<Line> = Vec::new();
    if dns.skipped {
        lines.push(Line::Good(fixed(lang, MsgKey::DnsSkippedIpLiteral)));
        return lines;
    }
    let mut i: usize = 0;
    while i < dns.sources.len()
        invariant
            i <= dns.sources@.len(),
            lines@.len() == i,
            forall|j: int|
                0 <= j < i ==> (#[trigger] lines@[j])@ == source_shown(lang, dns.sources@[j]),
        decreases dns.sources@.len() - i,
    {
        lines.push(source_line(lang, &dns.sources[i]));
        i = i + 1;
    }
    lines
}

// ── TCP ─────────────────────────────────────────────────────────────────

pub open spec fn probe_shown(lang: Lang, p: TcpProbe) -> LineView {
    match p.outcome {
        TcpOutcome::Connected => LineView::Good(
            i18n::tcp_ok_text(
                lang,
                p.ip,
                p.port,
                p.successes,
                p.samples,
                measure::ms_text(p.min_ms),
                measure::ms_text(p.avg_ms),
                measure::ms_text(p.max_ms),
            ),
        ),
        TcpOutcome::Refused => LineView::Bad(i18n::tcp_refused_text(lang, p.ip, p.port)),
        TcpOutcome::Timeout => LineView::Bad(i18n::tcp_timeout_text(lang, p.ip, p.port)),
        TcpOutcome::Error(e) => LineView::Bad(i18n::tcp_error_text(lang, p.ip, p.port, e@)),
    }
}

pub open spec fn tcp_shown(lang: Lang, tcp: TcpReport) -> Seq<LineView> {
    Seq::new(tcp.probes@.len(), |i: int| probe_shown(lang, tcp.probes@[i]))
}

fn probe_line(lang: Lang, p: &TcpProbe) -> (line: Line)
    ensures
        line@ == probe_shown(lang, *p),
{
    match &p.outcome {
        TcpOutcome::Connected => {
            let min = measure::fmt_ms(p.min_ms);
            let avg = measure::fmt_ms(p.avg_ms);
            let max = measure::fmt_ms(p.max_ms);
            Line::Good(
                i18n::tcp_ok_line(
                    lang,
                    &p.ip,
                    p.port,
                    p.successes,
                    p.samples,
                    min.as_str(),
                    avg.as_str(),
                    max.as_str(),
                ),
            )
        },
        TcpOutcome::Refused => Line::Bad(i18n::tcp_refused_line(lang, &p.ip, p.port)),
        TcpOutcome::Timeout => Line::Bad(i18n::tcp_timeout_line(lang, &p.ip, p.port)),
        TcpOutcome::Error(e) => Line::Bad(i18n::tcp_error_line(lang, &p.ip, p.port, e.as_str())),
    }
}

/// What the TCP stage shows.
pub fn tcp_lines(lang: Lang, tcp: &TcpReport) -> (lines: Vec<Line>)
    ensures
        views(lines@) == tcp_shown(lang, *tcp),
{
    let mut lines: Vec<Line> = Vec::new();
    let mut i: usize = 0;
    while i < tcp.probes.len()
        invariant
            i <= tcp.probes@.len(),
            lines@.len() == i,
            forall|j: int|
                0 <= j < i ==> (#[trigger] lines@[j])@ == probe_shown(lang, tcp.probes@[j]),
        decreases tcp.probes@.len() - i,
    {
        lines.push(probe_line(lang, &tcp.probes[i]));
        i = i + 1;
    }
    lines
}

// ── TLS ─────────────────────────────────────────────────────────────────

pub open spec fn expiry_shown(lang: Lang, days: Option<i64>) -> Seq<LineView> {
    match days {
        Some(d) => if d < 0 {
            seq![LineView::Bad(i18n::cert_expired_ago_text(lang, rules::days_ago(days)))]
        } else if d <= EXPIRY_NOTICE_DAYS {
            seq![LineView::Warn(i18n::cert_days_left_text(lang, d))]
        } else {
            seq![LineView::Good(i18n::cert_days_left_text(lang, d))]
        },
        None => Seq::empty(),
    }
}

pub open spec fn tls_shown(lang: Lang, tls: TlsReport) -> Seq<LineView> {
    if tls.verified {
        seq![
            LineView::Good(
                i18n::tls_handshake_ok_text(
                    lang,
                    rules::or_unknown(tls.version),
                    measure::ms_text(tls.handshake_ms),
                ),
            ),
        ] + expiry_shown(lang, tls.days_until_expiry) + seq![
            LineView::Good(i18n::msg_text(lang, MsgKey::CertChainOk)),
        ]
    } else {
        seq![
            LineView::Bad(
                i18n::cert_verify_failed_text(
                    lang,
                    match tls.error {
                        Some(e) => e@,
                        None => i18n::msg_text(lang, MsgKey::UnknownError),
                    },
                ),
            ),
        ] + (match tls.presented_issuer {
            Some(issuer) => seq![
                LineView::Warn(
                    i18n::presented_issuer_text(lang, issuer@, tls.interception_suspected),
                ),
            ],
            None => Seq::empty(),
        })
    }
}

/// What the TLS stage shows.
pub fn tls_lines(lang: Lang, tls: &TlsReport) -> (lines: Vec<Line>)
    ensures
        views(lines@) == tls_shown(lang, *tls),
{
    let mut lines: Vec<Line> = Vec::new();
    if tls.verified {
        let version = rules::unknown_or(&tls.version);
        let ms = measure::fmt_ms(tls.handshake_ms);
        lines.push(
            Line::Good(i18n::tls_handshake_ok_line(lang, version.as_str(), ms.as_str())),
        );
        if let Some(days) = tls.days_until_expiry {
            if days < 0 {
                let ago: i64 = rules::negated(days);
                lines.push(Line::Bad(i18n::cert_expired_ago_line(lang, ago)));
            } else if days <= EXPIRY_NOTICE_DAYS {
                lines.push(Line::Warn(i18n::cert_days_left_line(lang, days)));
            } else {
                lines.push(Line::Good(i18n::cert_days_left_line(lang, days)));
            }
        }
        lines.push(Line::Good(fixed(lang, MsgKey::CertChainOk)));
    } else {
        let error = match &tls.error {
            Some(e) => e.clone(),
            None => fixed(lang, MsgKey::UnknownError),
        };
        lines.push(Line::Bad(i18n::cert_verify_failed_line(lang, error.as_str())));
        if let Some(issuer) = &tls.presented_issuer {
            lines.push(
                Line::Warn(
                    i18n::presented_issuer_line(
                        lang,
                        issuer.as_str(),
                        tls.interception_suspected,
                    ),
                ),
            );
        }
    }
    lines
}

// ── HTTP ────────────────────────────────────────────────────────────────

pub open spec fn redirects_shown(lang: Lang, chain: Seq<String>) -> Seq<LineView> {
    Seq::new(chain.len(), |i: int| LineView::Good(i18n::http_redirect_text(lang, chain[i]@)))
}

pub open spec fn result_shown(lang: Lang, url: Seq<char>, http: HttpReport) -> LineView {
    match (http.status, http.error) {
        (Some(status), None) => {
            let line = i18n::http_result_text(
                lang,
                url,
                status,
                measure::ms_text(http.dns_ms),
                measure::ms_text(http.connect_ms),
                measure::ms_text(http.tls_ms),
                measure::ms_text(http.ttfb_ms),
                measure::ms_text(http.total_ms),
            );
            if 200 <= status < 400 {
                LineView::Good(line)
            } else {
                LineView::Warn(line)
            }
        },
        (Some(status), Some(e)) => LineView::Bad(
            i18n::http_status_with_error_text(lang, url, status, e@),
        ),
        (None, Some(e)) => LineView::Bad(i18n::http_failed_text(lang, url, e@)),
        (None, None) => LineView::Bad(i18n::http_no_result_text(lang, url)),
    }
}

pub open spec fn http_shown(lang: Lang, url: Seq<char>, http: HttpReport) -> Seq<LineView> {
    redirects_shown(lang, http.redirect_chain@).push(result_shown(lang, url, http))
}

fn result_line(lang: Lang, url: &str, http: &HttpReport) -> (line: Line)
    ensures
        line@ == result_shown(lang, url@, *http),
{
    match (http.status, &http.error) {
        (Some(status), None) => {
            let dns = measure::fmt_ms(http.dns_ms);
            let connect = measure::fmt_ms(http.connect_ms);
            let tls = measure::fmt_ms(http.tls_ms);
            let ttfb = measure::fmt_ms(http.ttfb_ms);
            let total = measure::fmt_ms(http.total_ms);
            let line = i18n::http_result_line(
                lang,
                url,
                status,
                dns.as_str(),
                connect.as_str(),
                tls.as_str(),
                ttfb.as_str(),
                total.as_str(),
            );
            if 200 <= status && status < 400 {
                Line::Good(line)
            } else {
                Line::Warn(line)
            }
        },
        (Some(status), Some(e)) => Line::Bad(
            i18n::http_status_with_error_line(lang, url, status, e.as_str()),
        ),
        (None, Some(e)) => Line::Bad(i18n::http_failed_line(lang, url, e.as_str())),
        (None, None) => Line::Bad(i18n::http_no_result_line(lang, url)),
    }
}

/// What the HTTP stage shows.
pub fn http_lines(lang: Lang, url: &str, http: &HttpReport) -> (lines: Vec<Line>)
    ensures
        views(lines@) == http_shown(lang, url@, *http),
{
    let mut lines: Vec<Line> = Vec::new();
    let mut i: usize = 0;
    while i < http.redirect_chain.len()
        invariant
            i <= http.redirect_chain@.len(),
            lines@.len() == i,
            forall|j: int|
                0 <= j < i ==> (#[trigger] lines@[j])@ == LineView::Good(
                    i18n::http_redirect_text(lang, http.redirect_chain@[j]@),
                ),
        decreases http.redirect_chain@.len() - i,
    {
        lines.push(Line::Good(i18n::http_redirect_line(lang, http.redirect_chain[i].as_str())));
        i = i + 1;
    }
    lines.push(result_line(lang, url, http));
    lines
}

// ── QUIC ────────────────────────────────────────────────────────────────

pub open spec fn handshake_shown(lang: Lang, port: u16, quic: QuicReport) -> LineView {
    match quic.outcome {
        QuicOutcome::Established { handshake_ms, negotiated_alpn } => LineView::Good(
            i18n::quic_handshake_ok_text(
                lang,
                measure::ms_text(Some(handshake_ms)),
                rules::or_unknown(negotiated_alpn),
            ),
        ),
        QuicOutcome::Timeout => LineView::Bad(i18n::quic_timeout_text(lang, port)),
        QuicOutcome::HandshakeError(e) => LineView::Warn(
            i18n::quic_handshake_error_text(lang, e@),
        ),
        QuicOutcome::LocalError(e) => LineView::Warn(i18n::quic_local_error_text(lang, e@)),
    }
}

pub open spec fn offer_shown(lang: Lang, http: Option<HttpReport>) -> Seq<LineView> {
    match http {
        Some(http) => if http.h3_advertised && http.alt_svc is Some {
            seq![LineView::Good(i18n::h3_advertised_text(lang, http.alt_svc->0@))]
        } else {
            seq![LineView::Warn(i18n::h3_not_advertised_text(lang))]
        },
        None => Seq::empty(),
    }
}

pub open spec fn quic_shown(
    lang: Lang,
    port: u16,
    quic: QuicReport,
    http: Option<HttpReport>,
) -> Seq<LineView> {
    seq![handshake_shown(lang, port, quic)] + offer_shown(lang, http)
}

/// What the QUIC stage shows.
pub fn quic_lines(lang: Lang, port: u16, quic: &QuicReport, http: &Option<HttpReport>) -> (lines:
    Vec<Line>)
    ensures
        views(lines@) == quic_shown(lang, port, *quic, *http),
{
    let mut lines: Vec<Line> = Vec::new();
    match &quic.outcome {
        QuicOutcome::Established { handshake_ms, negotiated_alpn } => {
            let ms = measure::fmt_ms(Some(*handshake_ms));
            let alpn = rules::unknown_or(negotiated_alpn);
            lines.push(
                Line::Good(i18n::quic_handshake_ok_line(lang, ms.as_str(), alpn.as_str())),
            );
        },
        QuicOutcome::Timeout => {
            lines.push(Line::Bad(i18n::quic_timeout_line(lang, port)));
        },
        QuicOutcome::HandshakeError(e) => {
            lines.push(Line::Warn(i18n::quic_handshake_error_line(lang, e.as_str())));
        },
        QuicOutcome::LocalError(e) => {
            lines.push(Line::Warn(i18n::quic_local_error_line(lang, e.as_str())));
        },
    }
    assert(views(lines@) == seq![handshake_shown(lang, port, *quic)]);
    if let Some(http) = http {
        match &http.alt_svc {
            Some(alt_svc) => {
                if http.h3_advertised {
                    lines.push(Line::Good(i18n::h3_advertised_line(lang, alt_svc.as_str())));
                } else {
                    lines.push(Line::Warn(i18n::h3_not_advertised_line(lang)));
                }
            },
            None => {
                lines.push(Line::Warn(i18n::h3_not_advertised_line(lang)));
            },
        }
    }
    lines
}

// ── Path quality ────────────────────────────────────────────────────────

pub open spec fn path_shown(lang: Lang, path: PathReport) -> LineView {
    let line = i18n::path_text(
        lang,
        path.sent,
        path.loss_pct,
        measure::ms_text(path.min_ms),
        measure::ms_text(path.avg_ms),
        measure::ms_text(path.max_ms),
        measure::ms_text(path.jitter_ms),
    );
    if path.loss_pct.at_least(LOSS_PCT_THRESHOLD as nat) || (path.jitter_ms is Some
        && path.jitter_ms->0.over(JITTER_MS_THRESHOLD as int)) {
        LineView::Warn(line)
    } else {
        LineView::Good(line)
    }
}

/// What the path quality stage shows.
pub fn path_lines(lang: Lang, path: &PathReport) -> (lines: Vec<Line>)
    ensures
        views(lines@) == seq![path_shown(lang, *path)],
{
    let min = measure::fmt_ms(path.min_ms);
    let avg = measure::fmt_ms(path.avg_ms);
    let max = measure::fmt_ms(path.max_ms);
    let jitter = measure::fmt_ms(path.jitter_ms);
    let line = i18n::path_line(
        lang,
        path.sent,
        path.loss_pct,
        min.as_str(),
        avg.as_str(),
        max.as_str(),
        jitter.as_str(),
    );
    let jittery = match path.jitter_ms {
        Some(j) => j.is_over(JITTER_MS_THRESHOLD),
        None => false,
    };
    let mut lines: Vec<Line> = Vec::new();
    if path.loss_pct.is_at_least(LOSS_PCT_THRESHOLD) || jittery {
        lines.push(Line::Warn(line));
    } else {
        lines.push(Line::Good(line));
    }
    lines
}

// ── Path trace ──────────────────────────────────────────────────────────

pub open spec fn hop_shown(lang: Lang, hop: TraceHop) -> LineView {
    match hop.addr {
        Some(ip) => LineView::Plain(
            i18n::trace_hop_text(hop.index, ip.shown(), measure::ms_text(hop.rtt_ms)),
        ),
        None => LineView::Plain(i18n::trace_hop_noreply_text(lang, hop.index)),
    }
}

pub open spec fn hops_shown(lang: Lang, hops: Seq<TraceHop>) -> Seq<LineView> {
    if hops.len() == 0 {
        seq![LineView::Warn(i18n::msg_text(lang, MsgKey::TraceNoData))]
    } else {
        Seq::new(hops.len(), |i: int| hop_shown(lang, hops[i]))
    }
}

pub open spec fn reached_shown(lang: Lang, data: TraceData) -> Seq<LineView> {
    if data.dest_reached && data.hops@.len() > 0 {
        seq![LineView::Good(i18n::trace_dest_reached_text(lang, data.hops@.last().index))]
    } else {
        Seq::empty()
    }
}

pub open spec fn mtu_shown(lang: Lang, data: TraceData) -> Seq<LineView> {
    match trace::path_mtu(data.kernel_mtu, data.mtu_probes@) {
        Some(mtu) => if trace::blackhole(data.kernel_mtu, data.mtu_probes@) {
            seq![LineView::Warn(i18n::path_mtu_text(lang, mtu))]
        } else {
            seq![LineView::Good(i18n::path_mtu_text(lang, mtu))]
        },
        None => Seq::empty(),
    }
}

pub open spec fn trace_shown(lang: Lang, report: TraceReport) -> Seq<LineView> {
    match report {
        TraceReport::Unsupported => seq![
            LineView::Warn(i18n::msg_text(lang, MsgKey::TraceUnsupported)),
        ],
        TraceReport::Failed(e) => seq![LineView::Warn(i18n::trace_failed_text(lang, e@))],
        TraceReport::Ran(data) => hops_shown(lang, data.hops@) + reached_shown(lang, data)
            + mtu_shown(lang, data),
    }
}

fn hop_line(lang: Lang, hop: &TraceHop) -> (line: Line)
    ensures
        line@ == hop_shown(lang, *hop),
{
    match &hop.addr {
        Some(ip) => {
            let ip = ip.to_text();
            let ms = measure::fmt_ms(hop.rtt_ms);
            Line::Plain(i18n::trace_hop_line(lang, hop.index, ip.as_str(), ms.as_str()))
        },
        None => Line::Plain(i18n::trace_hop_noreply_line(lang, hop.index)),
    }
}

fn hop_lines(lang: Lang, hops: &[TraceHop]) -> (lines: Vec<Line>)
    ensures
        views(lines@) == hops_shown(lang, hops@),
{
    let mut lines: Vec<Line> = Vec::new();
    if hops.len() == 0 {
        lines.push(Line::Warn(fixed(lang, MsgKey::TraceNoData)));
        return lines;
    }
    let mut i: usize = 0;
    while i < hops.len()
        invariant
            i <= hops.len(),
            lines@.len() == i,
            forall|j: int| 0 <= j < i ==> (#[trigger] lines@[j])@ == hop_shown(lang, hops@[j]),
        decreases hops.len() - i,
    {
        lines.push(hop_line(lang, &hops[i]));
        i = i + 1;
    }
    lines
}

/// What the path trace shows.
pub fn trace_lines(lang: Lang, report: &TraceReport) -> (lines: Vec<Line>)
    ensures
        views(lines@) == trace_shown(lang, *report),
{
    match report {
        TraceReport::Unsupported => {
            let mut lines: Vec<Line> = Vec::new();
            lines.push(Line::Warn(fixed(lang, MsgKey::TraceUnsupported)));
            lines
        },
        TraceReport::Failed(e) => {
            let mut lines: Vec<Line> = Vec::new();
            lines.push(Line::Warn(i18n::trace_failed_line(lang, e.as_str())));
            lines
        },
        TraceReport::Ran(data) => {
            let mut lines = hop_lines(lang, data.hops.as_slice());
            if data.dest_reached && data.hops.len() > 0 {
                let last = data.hops[data.hops.len() - 1];
                lines.push(Line::Good(i18n::trace_dest_reached_line(lang, last.index)));
            }
            assert(views(lines@) == hops_shown(lang, data.hops@) + reached_shown(lang, *data));
            let analysis = trace::analyze_mtu(data.kernel_mtu, data.mtu_probes.as_slice());
            if let Some(mtu) = analysis.path_mtu {
                if analysis.blackhole {
                    lines.push(Line::Warn(i18n::path_mtu_line(lang, mtu)));
                } else {
                    lines.push(Line::Good(i18n::path_mtu_line(lang, mtu)));
                }
            }
            lines
        },
    }
}

// ── The verdict ─────────────────────────────────────────────────────────

/// One line of the block that shows a verdict.
#[derive(Debug, Clone, PartialEq)]
pub enum BlockLine {
    /// The statement that names the culprit.
    Verdict { label: String, text: String, healthy: bool },
    Heading(String),
    /// An item of the grounds.
    Item { bullet: String, text: String },
    /// A secondary finding.
    Note { bullet: String, text: String },
    NextStep { label: String, text: String },
}

/// The contents of a [`BlockLine`].
#[verifier::ext_equal]
pub enum BlockLineView {
    Verdict { label: Seq<char>, text: Seq<char>, healthy: bool },
    Heading(Seq<char>),
    Item { bullet: Seq<char>, text: Seq<char> },
    Note { bullet: Seq<char>, text: Seq<char> },
    NextStep { label: Seq<char>, text: Seq<char> },
}

impl View for BlockLine {
    type V = BlockLineView;

    open spec fn view(&self) -> BlockLineView {
        match self {
            BlockLine::Verdict { label, text, healthy } => BlockLineView::Verdict {
                label: label@,
                text: text@,
                healthy: *healthy,
            },
            BlockLine::Heading(label) => BlockLineView::Heading(label@),
            BlockLine::Item { bullet, text } => BlockLineView::Item {
                bullet: bullet@,
                text: text@,
            },
            BlockLine::Note { bullet, text } => BlockLineView::Note {
                bullet: bullet@,
                text: text@,
            },
            BlockLine::NextStep { label, text } => BlockLineView::NextStep {
                label: label@,
                text: text@,
            },
        }
    }
}

pub open spec fn block_views(list: Seq<BlockLine>) -> Seq<BlockLineView> {
    Seq::new(list.len(), |i: int| list[i]@)
}

pub open spec fn items_shown(lang: Lang, evidence: Seq<String>) -> Seq<BlockLineView> {
    Seq::new(
        evidence.len(),
        |i: int|
            BlockLineView::Item {
                bullet: i18n::msg_text(lang, MsgKey::Bullet),
                text: evidence[i]@,
            },
    )
}

pub open spec fn notes_shown(lang: Lang, secondary: Seq<String>) -> Seq<BlockLineView> {
    if secondary.len() == 0 {
        Seq::empty()
    } else {
        seq![BlockLineView::Heading(i18n::msg_text(lang, MsgKey::NotesLabel))] + Seq::new(
            secondary.len(),
            |i: int|
                BlockLineView::Note {
                    bullet: i18n::msg_text(lang, MsgKey::Bullet),
                    text: secondary[i]@,
                },
        )
    }
}

/// The block that shows a verdict. It holds the culprit, the grounds, the secondary
/// findings where there are any, and the next step.
pub open spec fn block_shown(lang: Lang, v: RenderedVerdict) -> Seq<BlockLineView> {
    seq![
        BlockLineView::Verdict {
            label: i18n::msg_text(lang, MsgKey::VerdictLabel),
            text: v.headline@,
            healthy: v.culprit is NoProblem,
        },
        BlockLineView::Heading(i18n::msg_text(lang, MsgKey::EvidenceLabel)),
    ] + items_shown(lang, v.evidence@) + notes_shown(lang, v.secondary@) + seq![
        BlockLineView::NextStep {
            label: i18n::msg_text(lang, MsgKey::NextStepLabel),
            text: v.next_step@,
        },
    ]
}

fn add_items(lang: Lang, evidence: &[String], lines: &mut Vec<BlockLine>)
    ensures
        block_views(final(lines)@) == block_views(old(lines)@) + items_shown(lang, evidence@),
{
    let ghost before = block_views(lines@);
    let mut i: usize = 0;
    while i < evidence.len()
        invariant
            i <= evidence.len(),
            block_views(lines@) == before + items_shown(lang, evidence@).take(i as int),
        decreases evidence.len() - i,
    {
        let ghost now = block_views(lines@);
        let line = BlockLine::Item {
            bullet: fixed(lang, MsgKey::Bullet),
            text: evidence[i].clone(),
        };
        lines.push(line);
        assert(block_views(lines@) == now.push(line@));
        i = i + 1;
    }
    assert(items_shown(lang, evidence@).take(evidence@.len() as int) == items_shown(
        lang,
        evidence@,
    ));
}

fn add_notes(lang: Lang, secondary: &[String], lines: &mut Vec<BlockLine>)
    ensures
        block_views(final(lines)@) == block_views(old(lines)@) + notes_shown(lang, secondary@),
{
    if secondary.len() == 0 {
        return;
    }
    let ghost before = block_views(lines@);
    let heading = BlockLine::Heading(fixed(lang, MsgKey::NotesLabel));
    lines.push(heading);
    assert(block_views(lines@) == before.push(heading@));
    let mut i: usize = 0;
    while i < secondary.len()
        invariant
            i <= secondary.len(),
            secondary@.len() > 0,
            block_views(lines@) == before + notes_shown(lang, secondary@).take(i + 1),
        decreases secondary.len() - i,
    {
        let ghost now = block_views(lines@);
        let line = BlockLine::Note {
            bullet: fixed(lang, MsgKey::Bullet),
            text: secondary[i].clone(),
        };
        lines.push(line);
        assert(block_views(lines@) == now.push(line@));
        assert(notes_shown(lang, secondary@)[i + 1] == line@);
        i = i + 1;
    }
    assert(notes_shown(lang, secondary@).take(secondary@.len() as int + 1) == notes_shown(
        lang,
        secondary@,
    ));
}

/// What a verdict shows.
pub fn verdict_block(lang: Lang, v: &RenderedVerdict) -> (lines: Vec<BlockLine>)
    ensures
        block_views(lines@) == block_shown(lang, *v),
{
    let healthy = matches!(v.culprit, Culprit::NoProblem);
    let mut lines: Vec<BlockLine> = Vec::new();
    lines.push(
        BlockLine::Verdict {
            label: fixed(lang, MsgKey::VerdictLabel),
            text: v.headline.clone(),
            healthy,
        },
    );
    lines.push(BlockLine::Heading(fixed(lang, MsgKey::EvidenceLabel)));
    assert(block_views(lines@) == seq![
        BlockLineView::Verdict {
            label: i18n::msg_text(lang, MsgKey::VerdictLabel),
            text: v.headline@,
            healthy: v.culprit is NoProblem,
        },
        BlockLineView::Heading(i18n::msg_text(lang, MsgKey::EvidenceLabel)),
    ]);
    add_items(lang, v.evidence.as_slice(), &mut lines);
    add_notes(lang, v.secondary.as_slice(), &mut lines);
    let ghost before = block_views(lines@);
    let last = BlockLine::NextStep {
        label: fixed(lang, MsgKey::NextStepLabel),
        text: v.next_step.clone(),
    };
    lines.push(last);
    assert(block_views(lines@) == before + seq![last@]);
    lines
}

// ── A diagnosis that was cut short ──────────────────────────────────────

pub open spec fn stage_names(list: Seq<StageName>) -> Seq<Seq<char>> {
    Seq::new(list.len(), |i: int| list[i].code())
}

/// The notice about a diagnosis that was cut short: a headline, the reason where
/// it is known, the stages that ran, and those that were skipped.
pub open spec fn truncation_shown(lang: Lang, c: Completeness) -> Seq<Seq<char>> {
    seq![i18n::truncated_header_text(lang)] + (match c.truncated_reason {
        Some(reason) => seq![i18n::truncation_reason_text(lang, reason)],
        None => Seq::empty(),
    }) + seq![
        i18n::stages_ran_text(lang, text::join(stage_names(c.ran_stages@), ", "@)),
    ] + (if c.skipped_stages@.len() > 0 {
        seq![i18n::stages_skipped_text(lang, text::join(stage_names(c.skipped_stages@), ", "@))]
    } else {
        Seq::empty()
    })
}

fn list_stages(list: &[StageName]) -> (s: String)
    ensures
        s@ == text::join(stage_names(list@), ", "@),
{
    let mut names: Vec<String> = Vec::new();
    let mut i: usize = 0;
    while i < list.len()
        invariant
            i <= list.len(),
            names@.len() == i,
            forall|j: int| 0 <= j < i ==> (#[trigger] names@[j])@ == list@[j].code(),
        decreases list.len() - i,
    {
        names.push(list[i].as_str().to_owned());
        i = i + 1;
    }
    assert(text::texts(names@) == stage_names(list@));
    text::join_texts(names.as_slice(), ", ")
}

/// What a diagnosis that was cut short shows before its verdict.
pub fn truncation_notice(lang: Lang, c: &Completeness) -> (lines: Vec<String>)
    ensures
        text::texts(lines@) == truncation_shown(lang, *c),
{
    let mut lines: Vec<String> = Vec::new();
    lines.push(i18n::truncated_header_line(lang));
    if let Some(reason) = c.truncated_reason {
        lines.push(i18n::truncation_reason_line(lang, reason));
    }
    let ran = list_stages(c.ran_stages.as_slice());
    lines.push(i18n::stages_ran_line(lang, ran.as_str()));
    if c.skipped_stages.len() > 0 {
        let skipped = list_stages(c.skipped_stages.as_slice());
        lines.push(i18n::stages_skipped_line(lang, skipped.as_str()));
    }
    lines
}

} // verus!
