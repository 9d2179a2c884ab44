//! The course of a diagnosis, and watch mode.

use netblame::addr::parse_ip;
use netblame::deadline::{should_stop, Deadline};
use netblame::diagnose::{exit_code, interrupted, Diagnosis, Step};
use netblame::i18n::{Lang, MsgKey};
use netblame::measure::{Millis, Percent};
use netblame::probe::tcp::{pick_targets, summarize, Attempt};
use netblame::report::{
    Completeness, DnsOutcome, DnsReport, DnsSource, DnsSourceResult, EnvReport, HttpReport,
    PathReport, QuicOutcome, QuicReport, Report, StageName, TargetInfo, TcpOutcome, TcpReport,
    TlsReport, TraceReport, TruncationReason,
};
use netblame::show::{truncation_notice, verdict_block, BlockLine, Line};
use netblame::target::parse_target;
use netblame::verdict;
use netblame::verdict::{Culprit, Verdict};
use netblame::watch::{interval_secs, timeline_entry, TimelineEntry, Watch};

fn ms(n: u32) -> Millis {
    Millis::from_ms(n)
}

/// Runs a diagnosis whose TCP attempts all end in the same way.
fn diagnose(
    raw: &str,
    samples: u32,
    tcp: fn() -> Attempt,
    mut stop: impl FnMut(usize) -> bool,
) -> (Report, Verdict, Vec<Line>) {
    let mut d = Diagnosis::new(parse_target(raw).unwrap(), false, Lang::En);
    let mut boundary = 0;
    loop {
        let step = d.next(stop(boundary));
        boundary += 1;
        match step {
            Step::Env => d.env_done(EnvReport::default(), ms(1)),
            Step::Dns => d.dns_done(
                DnsReport {
                    sources: vec![],
                    skipped: true,
                },
                ms(1),
            ),
            Step::Tcp(ips) => {
                let probes = pick_targets(&ips)
                    .iter()
                    .map(|ip| {
                        let attempts: Vec<Attempt> = (0..samples).map(|_| tcp()).collect();
                        summarize(*ip, parse_target(raw).unwrap().port, &attempts, Lang::En)
                    })
                    .collect();
                d.tcp_done(TcpReport { probes }, ms(300))
            }
            Step::Trace(_) => d.trace_done(TraceReport::Unsupported, ms(1)),
            Step::Nothing => {}
            Step::Finished => break,
            _ => unreachable!(),
        }
    }
    let lines = d.take_lines();
    let (report, verdict) = d.finish();
    (report, verdict, lines)
}

fn timed_out() -> Attempt {
    Attempt::Failed(TcpOutcome::Timeout)
}

fn refused() -> Attempt {
    Attempt::Failed(TcpOutcome::Refused)
}

#[test]
fn diagnose_stops_immediately_when_deadline_already_expired() {
    let deadline = Deadline::already_expired();
    let (report, verdict, _) = diagnose("192.0.2.1:9999", 1, timed_out, |_| {
        should_stop(Some(&deadline))
    });

    assert!(!report.completeness.complete);
    assert_eq!(
        report.completeness.truncated_reason,
        Some(TruncationReason::MaxTimeExceeded)
    );
    assert_eq!(report.completeness.ran_stages, vec![StageName::Env]);
    assert!(report.completeness.skipped_stages.contains(&StageName::Dns));
    assert!(report.completeness.skipped_stages.contains(&StageName::Tcp));
    assert!(report.dns.sources.is_empty());
    assert!(report.tcp.probes.is_empty());
    assert!(report.tls.is_none());
    assert_eq!(verdict.culprit, Culprit::NoProblem);
    assert_eq!(exit_code(&report, &verdict), 3);
}

#[test]
fn diagnose_truncated_after_culprit_found_keeps_normal_exit_code() {
    // The deadline passes while the TCP stage is under way.
    let (report, verdict, _) = diagnose("192.0.2.1:9999", 1, timed_out, |boundary| boundary > 2);

    assert!(!report.completeness.complete);
    assert_eq!(
        report.completeness.truncated_reason,
        Some(TruncationReason::MaxTimeExceeded)
    );
    assert!(report.completeness.ran_stages.contains(&StageName::Tcp));
    assert!(report
        .completeness
        .skipped_stages
        .contains(&StageName::Path));
    assert_eq!(verdict.culprit, Culprit::TcpBlocked);
    assert_eq!(exit_code(&report, &verdict), 1);
}

#[test]
fn diagnose_without_deadline_runs_to_completion() {
    let (report, verdict, lines) =
        diagnose("127.0.0.1:9999", 1, refused, |_| should_stop(None));

    assert!(report.completeness.complete);
    assert!(report.completeness.truncated_reason.is_none());
    assert!(report.completeness.skipped_stages.is_empty());
    assert!(report.completeness.ran_stages.contains(&StageName::Env));
    assert!(report.completeness.ran_stages.contains(&StageName::Dns));
    assert!(report.completeness.ran_stages.contains(&StageName::Tcp));
    assert_eq!(verdict.culprit, Culprit::ServerDown);
    assert_eq!(exit_code(&report, &verdict), 1);
    assert_eq!(
        lines,
        vec![
            Line::Section(MsgKey::StageEnv),
            Line::Warn("no nameservers found in resolv.conf".into()),
            Line::Good("/etc/hosts: no overrides".into()),
            Line::Good("proxy environment variables: none".into()),
            Line::Section(MsgKey::StageDns),
            Line::Good("target is an IP literal, skipping name resolution".into()),
            Line::Section(MsgKey::StageTcp),
            Line::Bad(
                "IPv4 127.0.0.1:9999 connection refused (port closed, host is alive)".into()
            ),
        ]
    );
}

#[test]
fn diagnose_records_stage_durations() {
    let deadline = Deadline::already_expired();
    let (report, _verdict, _) = diagnose("192.0.2.1:9999", 1, timed_out, |_| {
        should_stop(Some(&deadline))
    });

    assert_eq!(report.stage_durations.len(), 1);
    assert_eq!(report.stage_durations[0].stage, StageName::Env);
    assert_eq!(report.stage_durations[0].ms, ms(1));
}

#[test]
fn timeout_triggers_the_trace() {
    let (report, verdict, lines) = diagnose("192.0.2.1:9999", 2, timed_out, |_| false);
    assert!(matches!(report.trace, Some(TraceReport::Unsupported)));
    assert!(report.completeness.ran_stages.contains(&StageName::Trace));
    assert_eq!(verdict.culprit, Culprit::TcpBlocked);
    assert_eq!(
        lines.last(),
        Some(&Line::Warn(
            "the path trace is supported on Linux only, skipping".into()
        ))
    );
}

#[test]
fn unresolved_name_settles_the_tcp_stage() {
    let mut d = Diagnosis::new(parse_target("https://example.com").unwrap(), true, Lang::En);
    assert!(matches!(d.next(false), Step::Env));
    d.env_done(EnvReport::default(), ms(1));
    assert!(matches!(d.next(false), Step::Dns));
    // A result that is not waited for is ignored.
    d.tcp_done(TcpReport::default(), ms(1));
    d.dns_done(DnsReport::default(), ms(1));
    d.take_lines();
    for _ in 0..6 {
        assert!(matches!(d.next(false), Step::Nothing));
    }
    assert!(matches!(d.next(false), Step::Finished));
    let lines = d.take_lines();
    assert_eq!(lines[0], Line::Section(MsgKey::StageTcp));
    assert_eq!(
        lines[1],
        Line::Bad("no IPs to connect to (name resolution failed)".into())
    );
    assert_eq!(
        lines[3],
        Line::Bad("skipping TLS because no TCP connection could be established".into())
    );
    assert_eq!(
        lines[5],
        Line::Bad("skipping HTTP because no TCP connection could be established".into())
    );
    let (report, _) = d.finish();
    assert_eq!(
        report.completeness.ran_stages,
        vec![StageName::Env, StageName::Dns, StageName::Tcp]
    );
    assert_eq!(report.stage_durations.len(), 2);
    assert!(report.completeness.complete);
}

fn healthy_dns() -> DnsReport {
    DnsReport {
        skipped: false,
        sources: vec![DnsSourceResult {
            source: DnsSource::System,
            label: "system resolver".into(),
            outcome: DnsOutcome::Resolved,
            ips: vec![parse_ip("93.184.216.34").unwrap()],
            latency_ms: Some(ms(12)),
        }],
    }
}

#[test]
fn healthy_https_target_runs_every_stage_but_the_trace() {
    let ip = parse_ip("93.184.216.34").unwrap();
    let mut d = Diagnosis::new(parse_target("https://example.com").unwrap(), false, Lang::En);
    let mut steps = vec![];
    loop {
        match d.next(false) {
            Step::Env => d.env_done(EnvReport::default(), ms(1)),
            Step::Dns => d.dns_done(healthy_dns(), ms(1)),
            Step::Tcp(ips) => {
                assert_eq!(ips, vec![ip]);
                let probe = summarize(ip, 443, &[Attempt::Connected(ms(19))], Lang::En);
                d.tcp_done(TcpReport { probes: vec![probe] }, ms(1));
            }
            Step::Tls(to) => {
                assert_eq!(to, ip);
                d.tls_done(
                    TlsReport {
                        verified: true,
                        version: Some("TLS 1.3".into()),
                        days_until_expiry: Some(55),
                        hostname_matches: Some(true),
                        handshake_ms: Some(ms(30)),
                        ..TlsReport::default()
                    },
                    ms(1),
                );
            }
            Step::Http(url) => {
                assert_eq!(url, "https://example.com/");
                d.http_done(
                    HttpReport {
                        status: Some(200),
                        ttfb_ms: Some(ms(95)),
                        total_ms: Some(ms(95)),
                        ..HttpReport::default()
                    },
                    ms(1),
                );
            }
            Step::Quic(to) => {
                assert_eq!(to, ip);
                d.quic_done(
                    QuicReport {
                        outcome: QuicOutcome::Timeout,
                    },
                    ms(1),
                );
            }
            Step::Path(to) => {
                assert_eq!(to, ip);
                d.path_done(
                    PathReport {
                        ip,
                        port: 443,
                        sent: 5,
                        lost: 0,
                        loss_pct: Percent::of(0, 5),
                        min_ms: Some(ms(15)),
                        avg_ms: Some(ms(23)),
                        max_ms: Some(ms(33)),
                        jitter_ms: Some(ms(7)),
                    },
                    ms(1),
                );
            }
            Step::Trace(_) => unreachable!(),
            Step::Nothing => {}
            Step::Finished => break,
        }
        steps.extend(d.take_lines());
    }
    assert!(steps.contains(&Line::Good(
        "GET https://example.com/ → 200 (DNS 12ms / connect 19ms / TLS 30ms / TTFB 95ms / total 95ms)"
            .into()
    )));
    assert!(steps.contains(&Line::Good(
        "5 probes: loss 0% / RTT min/avg/max 15ms/23ms/33ms / jitter 7ms".into()
    )));
    let (report, v) = d.finish();
    assert_eq!(v.culprit, Culprit::NoProblem);
    assert_eq!(report.completeness.ran_stages.len(), 7);
    assert_eq!(report.http.unwrap().connect_ms, Some(ms(19)));
}

#[test]
fn interruption_leaves_the_environment() {
    let target = parse_target("example.com").unwrap();
    let (report, v) = interrupted(&target, EnvReport::default());
    assert_eq!(
        report.completeness.truncated_reason,
        Some(TruncationReason::Interrupted)
    );
    assert_eq!(report.completeness.skipped_stages.len(), 8);
    assert_eq!(exit_code(&report, &v), 3);
    assert_eq!(
        truncation_notice(Lang::En, &report.completeness),
        vec![
            "The diagnosis was cut short; this is a partial result",
            "reason: interrupted (Ctrl-C)",
            "stages run: ",
            "stages skipped: env, dns, tcp, tls, http, quic, path, trace",
        ]
    );
}

#[test]
fn exit_code_healthy_is_zero() {
    let mut r = verdict::judge(&minimal_healthy_report());
    r.secondary.clear();
    let report = minimal_healthy_report();
    assert_eq!(exit_code(&report, &r), 0);
}

fn minimal_healthy_report() -> Report {
    Report {
        target: TargetInfo {
            host: "example.com".into(),
            port: 443,
            use_tls: true,
            do_http: true,
            path: "/".into(),
            is_ip_literal: false,
        },
        env: EnvReport::default(),
        dns: DnsReport::default(),
        tcp: TcpReport::default(),
        tls: None,
        http: None,
        quic: None,
        path: None,
        trace: None,
        completeness: Completeness::default(),
        stage_durations: Vec::new(),
    }
}

#[test]
fn verdict_blocks() {
    let mut report = minimal_healthy_report();
    let rendered = verdict::judge(&report).render(Lang::Ja);
    assert_eq!(
        verdict_block(Lang::Ja, &rendered),
        vec![
            BlockLine::Verdict {
                label: "【判定】".into(),
                text: "問題は見つかりませんでした。少なくとも今、この宛先への経路は健全です".into(),
                healthy: true,
            },
            BlockLine::Heading("【根拠】".into()),
            BlockLine::Item {
                bullet: "・".into(),
                text: "実施した全ステージで異常なし".into(),
            },
            BlockLine::NextStep {
                label: "【次の一手】".into(),
                text: "問題が断続的なら、症状が出ている最中にもう一度実行してください".into(),
            },
        ]
    );
    report.env.hosts_override = Some("10.0.0.1".into());
    let rendered = verdict::judge(&report).render(Lang::En);
    let block = verdict_block(Lang::En, &rendered);
    assert_eq!(block[3], BlockLine::Heading("[NOTES]".into()));
    assert_eq!(
        block[4],
        BlockLine::Note {
            bullet: "• ".into(),
            text: "/etc/hosts has an override for \"example.com\" (10.0.0.1) — connections ignore DNS"
                .into(),
        }
    );
}

// ── Watch mode ──────────────────────────────────────────────────────────

#[test]
fn watch_counts_runs_and_problems() {
    let healthy = minimal_healthy_report();
    let mut broken = minimal_healthy_report();
    broken.dns = healthy_dns();
    broken.dns.sources[0].outcome = DnsOutcome::NxDomain;
    let good = verdict::judge(&healthy).render(Lang::En);
    let bad = verdict::judge(&broken).render(Lang::En);
    let mut w = Watch::new();
    assert_eq!(w.exit_code(), 0);
    assert!(!w.record(&good, "10:12:42"));
    assert!(w.record(&bad, "10:13:12"));
    assert!(!w.record(&bad, "10:13:42"));
    assert!(w.record(&good, "10:14:12"));
    assert_eq!(w.exit_code(), 1);
    assert_eq!(
        w.summary(Lang::En),
        vec![
            "runs: 4 / ok: 2 (50%)",
            "Problems seen:",
            "  • The domain \"example.com\" does not exist. This is not a network problem — 2 times (first 10:13:12 / last 10:13:42)",
        ]
    );
    let mut w = Watch::new();
    assert!(w.record(&bad, "10:13:12"));
    assert_eq!(Watch::new().summary(Lang::Ja), vec!["実行回数: 0 / 正常: 0 (0%)"]);
}

#[test]
fn timeline_entries() {
    let mut report = minimal_healthy_report();
    report.dns = healthy_dns();
    let rendered = verdict::judge(&report).render(Lang::En);
    match timeline_entry(&report, &rendered, Lang::En) {
        TimelineEntry::Healthy(s) => {
            assert_eq!(s, "OK (dns 12ms / tcp - / ttfb - / loss -)")
        }
        TimelineEntry::Problem(_) => panic!(),
    }
    report.dns.sources[0].outcome = DnsOutcome::NxDomain;
    let rendered = verdict::judge(&report).render(Lang::En);
    match timeline_entry(&report, &rendered, Lang::En) {
        TimelineEntry::Problem(s) => {
            assert!(s.starts_with("[VERDICT] The domain \"example.com\" does not exist"))
        }
        TimelineEntry::Healthy(_) => panic!(),
    }
    assert_eq!(interval_secs(0), 1);
    assert_eq!(interval_secs(30), 30);
}
