//! The verdict engine, and its verdicts in words.

use netblame::addr::{parse_ip, IpAddr};
use netblame::i18n::Lang;
use netblame::measure::{Millis, Percent};
use netblame::probe::trace::HopZone;
use netblame::report::{
    Completeness, DnsOutcome, DnsReport, DnsSource, DnsSourceResult, EnvReport, HttpReport,
    MtuProbe, MtuProbeOutcome, PathReport, QuicOutcome, QuicReport, Report, TargetInfo, TcpOutcome,
    TcpProbe, TcpReport, TlsReport, TraceData, TraceHop, TraceReport,
};
use netblame::verdict::{judge, Culprit, Evidence, Finding, Headline};

fn ms(n: u32) -> Millis {
    Millis::from_ms(n)
}

fn ip(s: &str) -> IpAddr {
    parse_ip(s).unwrap()
}

fn ip4(last: u8) -> IpAddr {
    IpAddr::V4(93, 184, 216, last)
}
fn ip6() -> IpAddr {
    IpAddr::V6(0x2606, 0x2800, 0x220, 1, 0x248, 0x1893, 0x25c8, 0x1946)
}

fn dns_src(
    source: DnsSource,
    label: &str,
    outcome: DnsOutcome,
    ips: Vec<IpAddr>,
    latency: u32,
) -> DnsSourceResult {
    DnsSourceResult {
        source,
        label: label.into(),
        outcome,
        ips,
        latency_ms: Some(ms(latency)),
    }
}

fn healthy_dns() -> DnsReport {
    DnsReport {
        skipped: false,
        sources: vec![
            dns_src(
                DnsSource::System,
                "システム",
                DnsOutcome::Resolved,
                vec![ip4(34)],
                12,
            ),
            dns_src(
                DnsSource::Local(ip("192.168.1.1")),
                "ローカル 192.168.1.1",
                DnsOutcome::Resolved,
                vec![ip4(34)],
                15,
            ),
            dns_src(
                DnsSource::Public(ip("1.1.1.1")),
                "1.1.1.1",
                DnsOutcome::Resolved,
                vec![ip4(34)],
                20,
            ),
            dns_src(
                DnsSource::Public(ip("8.8.8.8")),
                "8.8.8.8",
                DnsOutcome::Resolved,
                vec![ip4(34)],
                22,
            ),
        ],
    }
}

fn ok_probe(ip: IpAddr) -> TcpProbe {
    TcpProbe {
        ip,
        port: 443,
        samples: 5,
        successes: 5,
        outcome: TcpOutcome::Connected,
        min_ms: Some(ms(10)),
        avg_ms: Some(ms(12)),
        max_ms: Some(ms(15)),
    }
}

fn fail_probe(ip: IpAddr, outcome: TcpOutcome) -> TcpProbe {
    TcpProbe {
        ip,
        port: 443,
        samples: 5,
        successes: 0,
        outcome,
        min_ms: None,
        avg_ms: None,
        max_ms: None,
    }
}

fn healthy_tls() -> TlsReport {
    TlsReport {
        verified: true,
        version: Some("TLS 1.3".into()),
        days_until_expiry: Some(120),
        hostname_matches: Some(true),
        cert_expired: false,
        presented_issuer: Some("DigiCert Global G3".into()),
        interception_suspected: false,
        handshake_ms: Some(ms(30)),
        error: None,
    }
}

fn healthy_http() -> HttpReport {
    HttpReport {
        status: Some(200),
        redirect_chain: vec![],
        dns_ms: Some(ms(12)),
        connect_ms: Some(ms(12)),
        tls_ms: Some(ms(30)),
        ttfb_ms: Some(ms(80)),
        total_ms: Some(ms(120)),
        error: None,
        h3_advertised: false,
        alt_svc: None,
    }
}

fn healthy_path() -> PathReport {
    PathReport {
        ip: ip4(34),
        port: 443,
        sent: 5,
        lost: 0,
        loss_pct: Percent::of(0, 5),
        min_ms: Some(ms(10)),
        avg_ms: Some(ms(12)),
        max_ms: Some(ms(14)),
        jitter_ms: Some(Millis { nanos: 1_500_000 }),
    }
}
fn base_report() -> Report {
    Report {
        target: TargetInfo {
            host: "example.com".into(),
            port: 443,
            use_tls: true,
            do_http: true,
            path: "/".into(),
            is_ip_literal: false,
        },
        env: EnvReport::default(),
        dns: healthy_dns(),
        tcp: TcpReport {
            probes: vec![ok_probe(ip4(34))],
        },
        tls: Some(healthy_tls()),
        http: Some(healthy_http()),
        quic: None,
        path: Some(healthy_path()),
        trace: None,
        completeness: Completeness::default(),
        stage_durations: Vec::new(),
    }
}
fn trace_ran(
    hops: Vec<TraceHop>,
    dest_reached: bool,
    kernel_mtu: Option<u16>,
    mtu_probes: Vec<MtuProbe>,
) -> Option<TraceReport> {
    Some(TraceReport::Ran(TraceData {
        hops,
        dest_reached,
        kernel_mtu,
        mtu_probes,
    }))
}

fn thop(index: u8, addr: Option<&str>) -> TraceHop {
    TraceHop {
        index,
        addr: addr.map(|a| ip(a)),
        rtt_ms: addr.map(|_| ms(10)),
    }
}

#[test]
fn no_problem() {
    let r = base_report();
    assert_eq!(judge(&r).culprit, Culprit::NoProblem);
}

#[test]
fn name_does_not_exist() {
    let mut r = base_report();
    for s in &mut r.dns.sources {
        s.outcome = DnsOutcome::NxDomain;
        s.ips.clear();
    }
    r.tcp.probes.clear();
    r.tls = None;
    r.http = None;
    r.path = None;
    assert_eq!(judge(&r).culprit, Culprit::NameDoesNotExist);
}

#[test]
fn local_dns_broken() {
    let mut r = base_report();
    for s in &mut r.dns.sources {
        if s.is_local() {
            s.outcome = DnsOutcome::Timeout;
            s.ips.clear();
            s.latency_ms = None;
        }
    }
    assert_eq!(judge(&r).culprit, Culprit::LocalDnsBroken);
}

#[test]
fn local_dns_slow() {
    let mut r = base_report();
    for s in &mut r.dns.sources {
        if s.is_local() {
            s.latency_ms = Some(ms(450));
        }
    }
    assert_eq!(judge(&r).culprit, Culprit::LocalDnsSlow);
}

#[test]
fn dns_answer_mismatch_with_failure() {
    let mut r = base_report();
    let hijack: IpAddr = ip("10.0.0.99");
    for s in &mut r.dns.sources {
        if s.is_local() {
            s.ips = vec![hijack];
        }
    }
    r.tcp.probes = vec![fail_probe(hijack, TcpOutcome::Timeout)];
    r.tls = None;
    r.http = None;
    r.path = None;
    assert_eq!(judge(&r).culprit, Culprit::DnsAnswerMismatch);
}

#[test]
fn dns_answer_mismatch_but_working_is_secondary() {
    let mut r = base_report();
    let cdn: IpAddr = ip("104.16.1.1");
    for s in &mut r.dns.sources {
        if s.is_local() {
            s.ips = vec![cdn];
        }
    }
    let v = judge(&r);
    assert_eq!(v.culprit, Culprit::NoProblem);
    assert!(v
        .secondary
        .iter()
        .any(|s| matches!(s, Finding::DnsAnswersDiffer { .. })));
}

#[test]
fn tcp_blocked() {
    let mut r = base_report();
    r.tcp.probes = vec![
        fail_probe(ip4(34), TcpOutcome::Timeout),
        fail_probe(ip6(), TcpOutcome::Timeout),
    ];
    r.tls = None;
    r.http = None;
    r.path = None;
    assert_eq!(judge(&r).culprit, Culprit::TcpBlocked);
}

#[test]
fn server_down_refused() {
    let mut r = base_report();
    r.tcp.probes = vec![fail_probe(ip4(34), TcpOutcome::Refused)];
    r.tls = None;
    r.http = None;
    r.path = None;
    assert_eq!(judge(&r).culprit, Culprit::ServerDown);
}

#[test]
fn ipv6_broken() {
    let mut r = base_report();
    r.tcp.probes = vec![ok_probe(ip4(34)), fail_probe(ip6(), TcpOutcome::Timeout)];
    assert_eq!(judge(&r).culprit, Culprit::Ipv6Broken);
}

#[test]
fn tls_cert_expired() {
    let mut r = base_report();
    let tls = r.tls.as_mut().unwrap();
    tls.verified = false;
    tls.cert_expired = true;
    tls.days_until_expiry = Some(-30);
    tls.error = Some("certificate expired".into());
    r.http = None;
    assert_eq!(judge(&r).culprit, Culprit::TlsCertExpired);
}

#[test]
fn tls_intercepted() {
    let mut r = base_report();
    let tls = r.tls.as_mut().unwrap();
    tls.verified = false;
    tls.error = Some("invalid peer certificate: UnknownIssuer".into());
    tls.presented_issuer = Some("CN=Zscaler Intermediate Root CA".into());
    tls.interception_suspected = true;
    r.http = None;
    assert_eq!(judge(&r).culprit, Culprit::TlsIntercepted);
}

#[test]
fn tls_cert_invalid() {
    let mut r = base_report();
    let tls = r.tls.as_mut().unwrap();
    tls.verified = false;
    tls.hostname_matches = Some(false);
    tls.error = Some("invalid peer certificate: NotValidForName".into());
    tls.presented_issuer = Some("CN=Let's Encrypt R11".into());
    r.http = None;
    assert_eq!(judge(&r).culprit, Culprit::TlsCertInvalid);
}

#[test]
fn proxy_interference() {
    let mut r = base_report();
    r.env.proxies = vec![("https_proxy".into(), "http://proxy.corp:8080".into())];
    r.http = Some(HttpReport {
        status: None,
        error: Some("error sending request: proxy connect failed".into()),
        ..HttpReport::default()
    });
    r.tls = Some(healthy_tls());
    assert_eq!(judge(&r).culprit, Culprit::ProxyInterference);
}

#[test]
fn server_slow() {
    let mut r = base_report();
    let http = r.http.as_mut().unwrap();
    http.ttfb_ms = Some(ms(4200));
    http.total_ms = Some(ms(4300));
    assert_eq!(judge(&r).culprit, Culprit::ServerSlow);
}

#[test]
fn unstable_path() {
    let mut r = base_report();
    r.path = Some(PathReport {
        ip: ip4(34),
        port: 443,
        sent: 10,
        lost: 3,
        loss_pct: Percent::of(3, 10),
        min_ms: Some(ms(10)),
        avg_ms: Some(ms(90)),
        max_ms: Some(ms(400)),
        jitter_ms: Some(ms(120)),
    });
    assert_eq!(judge(&r).culprit, Culprit::UnstablePath);
}

#[test]
fn pmtu_blackhole_detected() {
    let mut r = base_report();
    r.trace = trace_ran(
        vec![thop(1, Some("192.168.1.1")), thop(2, Some("10.0.0.1"))],
        true,
        Some(1500),
        vec![
            MtuProbe {
                size: 1500,
                outcome: MtuProbeOutcome::Silent,
            },
            MtuProbe {
                size: 1400,
                outcome: MtuProbeOutcome::Silent,
            },
            MtuProbe {
                size: 1280,
                outcome: MtuProbeOutcome::Delivered,
            },
        ],
    );
    let v = judge(&r);
    assert_eq!(v.culprit, Culprit::PmtuBlackhole);
    assert!(v
        .evidence
        .iter()
        .any(|e| matches!(e, Evidence::PmtuBlackholeObserved { mtu: 1280 })));
}

#[test]
fn healthy_mtu_trace_stays_no_problem() {
    let mut r = base_report();
    r.trace = trace_ran(
        vec![thop(1, Some("192.168.1.1")), thop(2, Some("93.184.216.34"))],
        true,
        Some(1500),
        vec![MtuProbe {
            size: 1500,
            outcome: MtuProbeOutcome::Delivered,
        }],
    );
    assert_eq!(judge(&r).culprit, Culprit::NoProblem);
}

#[test]
fn pmtud_working_is_not_blackhole_verdict() {
    let mut r = base_report();
    r.trace = trace_ran(
        vec![],
        true,
        Some(1400),
        vec![MtuProbe {
            size: 1500,
            outcome: MtuProbeOutcome::FragNeeded { mtu: Some(1400) },
        }],
    );
    assert_eq!(judge(&r).culprit, Culprit::NoProblem);
}

#[test]
fn tcp_blocked_gains_hop_localization() {
    let mut r = base_report();
    r.tcp.probes = vec![fail_probe(ip4(34), TcpOutcome::Timeout)];
    r.tls = None;
    r.http = None;
    r.path = None;
    r.trace = trace_ran(
        vec![
            thop(1, Some("192.168.1.1")),
            thop(2, Some("10.0.0.1")),
            thop(3, Some("100.64.0.1")),
            thop(4, Some("203.0.113.1")),
            thop(5, None),
            thop(6, None),
        ],
        false,
        None,
        vec![],
    );
    let v = judge(&r);
    assert_eq!(v.culprit, Culprit::TcpBlocked);
    assert_eq!(v.zone_hint, Some(HopZone::Isp));
    assert!(v.evidence.iter().any(|e| matches!(
        e,
        Evidence::LastRespondingHop {
            index: 4,
            path_len: 6,
            ..
        }
    )));
    let en = v.render(Lang::En);
    assert!(en
        .evidence
        .iter()
        .any(|e| e.contains("last responding hop: 203.0.113.1 (hop 4 of ~6)")));
    assert!(en.next_step.contains("ISP's network"));
    let ja = v.render(Lang::Ja);
    assert!(ja
        .evidence
        .iter()
        .any(|e| e.contains("最後に応答したホップ: 203.0.113.1")));
    assert!(ja.next_step.contains("ISP 網内"));
}

#[test]
fn tcp_blocked_home_zone_when_hop_one_only() {
    let mut r = base_report();
    r.tcp.probes = vec![fail_probe(ip4(34), TcpOutcome::Timeout)];
    r.tls = None;
    r.http = None;
    r.path = None;
    r.trace = trace_ran(
        vec![thop(1, Some("192.168.1.1")), thop(2, None), thop(3, None)],
        false,
        None,
        vec![],
    );
    let v = judge(&r);
    assert_eq!(v.zone_hint, Some(HopZone::Home));
    let ja = v.render(Lang::Ja);
    assert!(ja.next_step.contains("宅内"));
}

#[test]
fn render_pmtu_blackhole_en_and_ja() {
    let mut r = base_report();
    r.trace = trace_ran(
        vec![],
        true,
        Some(1400),
        vec![
            MtuProbe {
                size: 1500,
                outcome: MtuProbeOutcome::Silent,
            },
            MtuProbe {
                size: 1472,
                outcome: MtuProbeOutcome::Silent,
            },
        ],
    );
    let v = judge(&r);
    assert_eq!(v.culprit, Culprit::PmtuBlackhole);
    let en = v.render(Lang::En);
    assert_eq!(en.culprit_code, "pmtu_blackhole");
    assert!(en.headline.contains("black hole"));
    assert!(en.evidence.iter().any(|e| e.contains("1400 bytes")));
    assert!(en.next_step.contains("MSS clamping"));
    let ja = v.render(Lang::Ja);
    assert!(ja.headline.contains("ブラックホール"));
    assert!(ja
        .evidence
        .iter()
        .any(|e| e.contains("経路 MTU が 1400 バイト")));
    assert!(ja.next_step.contains("MSS clamp"));
}

#[test]
fn hosts_override_is_reported_as_secondary() {
    let mut r = base_report();
    r.env.hosts_override = Some("127.0.0.1".into());
    let v = judge(&r);
    assert_eq!(v.culprit, Culprit::NoProblem);
    assert!(v
        .secondary
        .iter()
        .any(|s| matches!(s, Finding::HostsOverride { .. })));
}

#[test]
fn render_no_problem_en_and_ja() {
    let v = judge(&base_report());
    let en = v.render(Lang::En);
    assert_eq!(en.culprit_code, "no_problem");
    assert!(en.headline.contains("No problem found"));
    assert!(en.headline.contains("healthy right now"));
    assert!(en.next_step.contains("intermittent"));
    assert!(en
        .evidence
        .iter()
        .any(|e| e.contains("name resolution: OK")));
    let ja = v.render(Lang::Ja);
    assert!(ja.headline.contains("問題は見つかりませんでした"));
    assert!(ja.next_step.contains("もう一度実行"));
    assert!(ja.evidence.iter().any(|e| e.contains("名前解決: 正常")));
}

#[test]
fn render_tcp_blocked_en_and_ja() {
    let mut r = base_report();
    r.tcp.probes = vec![fail_probe(ip4(34), TcpOutcome::Timeout)];
    r.tls = None;
    r.http = None;
    r.path = None;
    let v = judge(&r);
    let en = v.render(Lang::En);
    assert!(en.headline.contains("port 443"));
    assert!(en.headline.contains("time out"));
    assert!(en.next_step.contains("another network"));
    let ja = v.render(Lang::Ja);
    assert!(ja.headline.contains("ポート 443"));
    assert!(ja.headline.contains("タイムアウト"));
    assert!(ja.next_step.contains("テザリング"));
}

#[test]
fn render_tls_cert_expired_en_and_ja() {
    let mut r = base_report();
    let tls = r.tls.as_mut().unwrap();
    tls.verified = false;
    tls.cert_expired = true;
    tls.days_until_expiry = Some(-30);
    tls.error = Some("certificate expired".into());
    r.http = None;
    let v = judge(&r);
    let en = v.render(Lang::En);
    assert!(en.headline.contains("certificate has expired"));
    assert!(en.headline.contains("not a network problem"));
    assert!(en
        .evidence
        .iter()
        .any(|e| e.contains("expired 30 days ago")));
    let ja = v.render(Lang::Ja);
    assert!(ja.headline.contains("証明書が期限切れ"));
    assert!(ja.evidence.iter().any(|e| e.contains("30 日前に失効")));
}

#[test]
fn render_name_does_not_exist_en_and_ja() {
    let mut r = base_report();
    for s in &mut r.dns.sources {
        s.outcome = DnsOutcome::NxDomain;
        s.ips.clear();
    }
    r.tcp.probes.clear();
    r.tls = None;
    r.http = None;
    r.path = None;
    let v = judge(&r);
    let en = v.render(Lang::En);
    assert!(en.headline.contains("\"example.com\" does not exist"));
    assert!(en.evidence.iter().any(|e| e.contains("NXDOMAIN")));
    let ja = v.render(Lang::Ja);
    assert!(ja.headline.contains("「example.com」は存在しません"));
}

// ── QUIC ────────────────────────────────────────────────────────────────

fn advertised(mut r: Report) -> Report {
    let http = r.http.as_mut().unwrap();
    http.h3_advertised = true;
    http.alt_svc = Some("h3=\":443\"; ma=86400".into());
    r
}

fn with_quic(mut r: Report, outcome: QuicOutcome) -> Report {
    r.quic = Some(QuicReport { outcome });
    r
}

#[test]
fn advertised_quic_timeout_is_udp443_blocked() {
    let r = with_quic(advertised(base_report()), QuicOutcome::Timeout);
    let v = judge(&r);
    assert_eq!(v.culprit, Culprit::Udp443Blocked);
    assert_eq!(v.headline, Headline::Udp443Blocked);
    assert_eq!(
        v.evidence,
        vec![
            Evidence::Http3Advertised,
            Evidence::QuicSilent,
            Evidence::OtherStagesHealthy,
        ]
    );
    assert!(v.secondary.is_empty());
    let en = v.render(Lang::En);
    assert_eq!(en.culprit_code, "udp443_blocked");
    assert!(en.headline.contains("UDP port 443"));
    assert!(v.render(Lang::Ja).headline.contains("UDP 443"));
}

#[test]
fn unadvertised_quic_timeout_is_a_note() {
    let v = judge(&with_quic(base_report(), QuicOutcome::Timeout));
    assert_eq!(v.culprit, Culprit::NoProblem);
    assert_eq!(
        v.secondary,
        vec![Finding::QuicTimedOut {
            h3_advertised: false
        }]
    );
}

#[test]
fn bigger_problem_wins_over_quic() {
    let mut r = with_quic(advertised(base_report()), QuicOutcome::Timeout);
    r.http.as_mut().unwrap().ttfb_ms = Some(ms(4200));
    let v = judge(&r);
    assert_eq!(v.culprit, Culprit::ServerSlow);
    assert_eq!(
        v.secondary,
        vec![Finding::QuicTimedOut {
            h3_advertised: true
        }]
    );
    assert_eq!(
        v.render(Lang::En).secondary,
        vec!["the QUIC handshake timed out although HTTP/3 is advertised — UDP 443 may be blocked"]
    );
}

#[test]
fn quic_errors_are_notes() {
    let v = judge(&with_quic(
        advertised(base_report()),
        QuicOutcome::HandshakeError("no ALPN".into()),
    ));
    assert_eq!(v.culprit, Culprit::NoProblem);
    assert_eq!(
        v.render(Lang::En).secondary,
        vec!["the QUIC handshake failed: no ALPN — not a network problem"]
    );
    let v = judge(&with_quic(
        base_report(),
        QuicOutcome::LocalError("no socket".into()),
    ));
    assert_eq!(
        v.secondary,
        vec![Finding::QuicLocalError {
            error: "no socket".into()
        }]
    );
    let v = judge(&with_quic(
        base_report(),
        QuicOutcome::Established {
            handshake_ms: ms(10),
            negotiated_alpn: Some("h3".into()),
        },
    ));
    assert!(v.secondary.is_empty());
}

// ── Priorities, edges and exact texts ───────────────────────────────────

#[test]
fn unstable_path_wins_over_a_black_hole() {
    let mut r = base_report();
    r.trace = trace_ran(
        vec![],
        true,
        Some(1400),
        vec![MtuProbe {
            size: 1500,
            outcome: MtuProbeOutcome::Silent,
        }],
    );
    assert_eq!(judge(&r).culprit, Culprit::PmtuBlackhole);
    r.path.as_mut().unwrap().loss_pct = Percent::of(1, 10);
    r.path.as_mut().unwrap().sent = 10;
    r.path.as_mut().unwrap().lost = 1;
    assert_eq!(judge(&r).culprit, Culprit::UnstablePath);
}

#[test]
fn silent_dns_means_a_dead_outbound_path() {
    let mut r = base_report();
    for s in &mut r.dns.sources {
        s.outcome = DnsOutcome::Timeout;
        s.ips.clear();
    }
    r.tcp.probes.clear();
    r.tls = None;
    r.http = None;
    r.path = None;
    let v = judge(&r);
    assert_eq!(v.culprit, Culprit::TcpBlocked);
    assert_eq!(v.headline, Headline::OutboundDead);
    assert_eq!(
        v.evidence,
        vec![
            Evidence::AllDnsUnresponsive,
            Evidence::OutboundBlockedSuspected
        ]
    );
}

#[test]
fn local_failures_are_listed_in_order() {
    let mut r = base_report();
    r.dns.sources[0].outcome = DnsOutcome::Timeout;
    r.dns.sources[1].outcome = DnsOutcome::Error("boom".into());
    let v = judge(&r);
    assert_eq!(v.culprit, Culprit::LocalDnsBroken);
    assert_eq!(
        v.render(Lang::En).evidence,
        vec![
            "Public DNS (1.1.1.1 / 8.8.8.8) resolves the name fine",
            "システム failed (timeout)",
            "ローカル 192.168.1.1 failed (error: boom)",
        ]
    );
    assert_eq!(
        v.render(Lang::En).headline,
        "Local DNS is not responding while public DNS works"
    );
}

#[test]
fn thresholds_are_exact() {
    let mut r = base_report();
    r.path.as_mut().unwrap().jitter_ms = Some(ms(50));
    assert_eq!(judge(&r).culprit, Culprit::NoProblem);
    r.path.as_mut().unwrap().jitter_ms = Some(Millis { nanos: 50_000_001 });
    assert_eq!(judge(&r).culprit, Culprit::UnstablePath);
    let mut r = base_report();
    r.http.as_mut().unwrap().ttfb_ms = Some(ms(1000));
    assert_eq!(judge(&r).culprit, Culprit::NoProblem);
    r.http.as_mut().unwrap().ttfb_ms = Some(ms(1001));
    assert_eq!(judge(&r).culprit, Culprit::ServerSlow);
    r.tcp.probes[0].avg_ms = Some(ms(100));
    assert_eq!(judge(&r).culprit, Culprit::NoProblem);
}

#[test]
fn soon_to_expire_certificate_is_a_note() {
    let mut r = base_report();
    r.tls.as_mut().unwrap().days_until_expiry = Some(14);
    assert_eq!(
        judge(&r).secondary,
        vec![Finding::CertExpiresSoon { days: 14 }]
    );
    r.tls.as_mut().unwrap().days_until_expiry = Some(15);
    assert!(judge(&r).secondary.is_empty());
}

#[test]
fn answers_are_sorted_and_told_once() {
    let mut r = base_report();
    for s in &mut r.dns.sources {
        if s.is_local() {
            s.ips = vec![ip("10.0.0.9"), ip("10.0.0.10"), ip("10.0.0.9")];
        }
    }
    r.tcp.probes = vec![fail_probe(ip4(34), TcpOutcome::Timeout)];
    r.tls = None;
    r.http = None;
    r.path = None;
    let v = judge(&r);
    assert_eq!(v.culprit, Culprit::DnsAnswerMismatch);
    assert_eq!(
        v.evidence[0],
        Evidence::LocalDnsAnswers {
            ips: vec!["10.0.0.10".into(), "10.0.0.9".into()]
        }
    );
    assert_eq!(
        v.render(Lang::En).evidence[0],
        "local answers: 10.0.0.10, 10.0.0.9"
    );
}

#[test]
fn healthy_evidence_is_told_stage_by_stage() {
    let en = judge(&base_report()).render(Lang::En);
    assert_eq!(
        en.evidence,
        vec![
            "name resolution: OK",
            "TCP connect: OK (12ms)",
            "TLS: OK (TLS 1.3, certificate valid for 120 more days)",
            "HTTP: 200 (TTFB 80ms)",
            "path quality: loss 0% / jitter 2ms",
        ]
    );
}

#[test]
fn reached_destination_gives_no_zone() {
    let mut r = base_report();
    r.tcp.probes = vec![fail_probe(ip4(34), TcpOutcome::Refused)];
    r.tls = None;
    r.http = None;
    r.path = None;
    r.trace = trace_ran(
        vec![thop(1, Some("192.168.1.1")), thop(2, Some("93.184.216.34"))],
        true,
        None,
        vec![],
    );
    let v = judge(&r);
    assert_eq!(v.culprit, Culprit::ServerDown);
    assert_eq!(v.zone_hint, None);
    assert_eq!(
        v.evidence[2],
        Evidence::LastRespondingHop {
            ip: "93.184.216.34".into(),
            index: 2,
            path_len: 2
        }
    );
}

#[test]
fn proxy_variables_are_shown_as_assignments() {
    let mut r = base_report();
    r.env.proxies = vec![("https_proxy".into(), "http://proxy.corp:8080".into())];
    r.http = Some(HttpReport {
        error: Some("refused".into()),
        ..HttpReport::default()
    });
    let v = judge(&r);
    assert_eq!(v.culprit, Culprit::ProxyInterference);
    assert_eq!(
        v.render(Lang::En).evidence,
        vec![
            "proxy environment variables detected: https_proxy=http://proxy.corp:8080",
            "Direct TCP connections succeed, yet the HTTP request fails",
            "HTTP error: refused",
        ]
    );
    assert_eq!(
        v.secondary,
        vec![Finding::ProxyEnvPresent {
            names: vec!["https_proxy".into()]
        }]
    );
}

#[test]
fn culprits_have_different_codes() {
    let all = [
        Culprit::LocalDnsBroken,
        Culprit::LocalDnsSlow,
        Culprit::DnsAnswerMismatch,
        Culprit::NameDoesNotExist,
        Culprit::TcpBlocked,
        Culprit::Ipv6Broken,
        Culprit::TlsCertExpired,
        Culprit::TlsCertInvalid,
        Culprit::TlsIntercepted,
        Culprit::ProxyInterference,
        Culprit::UnstablePath,
        Culprit::PmtuBlackhole,
        Culprit::Udp443Blocked,
        Culprit::ServerSlow,
        Culprit::ServerDown,
        Culprit::NoProblem,
    ];
    for a in all {
        for b in all {
            assert_eq!(a == b, a.code() == b.code());
        }
    }
    assert_eq!(Culprit::NoProblem.code(), "no_problem");
}
