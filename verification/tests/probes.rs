//! The decisions of the DNS, TCP, TLS, HTTP and QUIC stages.

use netblame::addr::{parse_ip, IpAddr};
use netblame::i18n::Lang;
use netblame::measure::Millis;
use netblame::probe::dns::{
    classify_error, direct_result, fqdn, gather, plan, system_result, DirectReply, LookupFault,
    Query, SystemReply,
};
use netblame::probe::http::{not_set_up, Fetch, FetchPhase, ResponseHead};
use netblame::probe::quic::{conclude, QuicEnd};
use netblame::probe::tcp::{pick_targets, summarize, Attempt};
use netblame::probe::tls::{
    examine, failed_report, fault_words, inspect_cert, looks_like_middlebox, verified_report,
    version_name, weigh_cert, Handshake, HandshakeFault,
};
use netblame::report::{DnsOutcome, DnsSource, QuicOutcome, TcpOutcome};

fn ip(s: &str) -> IpAddr {
    parse_ip(s).unwrap()
}

fn ms(n: u32) -> Millis {
    Millis::from_ms(n)
}

// ── DNS ─────────────────────────────────────────────────────────────────

#[test]
fn queries_are_planned() {
    let servers = [ip("10.0.0.1"), ip("10.0.0.2"), ip("10.0.0.3"), ip("10.0.0.4")];
    let list = plan("example.com", &servers, Lang::Ja).unwrap();
    let labels: Vec<&str> = list.iter().map(|q| q.label.as_str()).collect();
    assert_eq!(
        labels,
        vec![
            "システムリゾルバ",
            "ローカル 10.0.0.1",
            "ローカル 10.0.0.2",
            "ローカル 10.0.0.3",
            "ローカル 10.0.0.4",
            "1.1.1.1 (Cloudflare)",
            "8.8.8.8 (Google)",
        ]
    );
    let sources: Vec<DnsSource> = list.into_iter().map(|q| q.source).collect();
    assert_eq!(
        sources,
        vec![
            DnsSource::System,
            DnsSource::Local(ip("10.0.0.1")),
            DnsSource::Local(ip("10.0.0.2")),
            DnsSource::Local(ip("10.0.0.3")),
            DnsSource::Local(ip("10.0.0.4")),
            DnsSource::Public(ip("1.1.1.1")),
            DnsSource::Public(ip("8.8.8.8")),
        ]
    );
    assert!(plan("192.0.2.1", &servers, Lang::En).is_none());
    assert_eq!(plan("a", &[], Lang::En).unwrap().len(), 3);
}

#[test]
fn names_are_made_absolute() {
    assert_eq!(fqdn("example.com"), "example.com.");
    assert_eq!(fqdn("example.com."), "example.com.");
}

fn system() -> Query {
    Query {
        source: DnsSource::System,
        label: "system".into(),
    }
}

#[test]
fn system_replies() {
    let unknown = "failed to lookup address information: Name or service not known";
    let r = system_result(system(), SystemReply::Failed(unknown.into()), ms(5));
    assert_eq!(r.outcome, DnsOutcome::NxDomain);
    assert_eq!(r.latency_ms, Some(ms(5)));
    let r = system_result(system(), SystemReply::Failed("Try again".into()), ms(5));
    assert_eq!(r.outcome, DnsOutcome::Error("Try again".into()));
    let r = system_result(system(), SystemReply::TimedOut, ms(5));
    assert_eq!(r.outcome, DnsOutcome::Timeout);
    assert_eq!(r.latency_ms, None);
    let r = system_result(system(), SystemReply::NotRun("cancelled".into()), ms(5));
    assert_eq!(r.outcome, DnsOutcome::Error("join error: cancelled".into()));
    let answer = vec![ip("10.0.0.2"), ip("10.0.0.1"), ip("10.0.0.2")];
    let r = system_result(system(), SystemReply::Answered(answer), ms(5));
    assert_eq!(r.outcome, DnsOutcome::Resolved);
    assert_eq!(r.ips, vec![ip("10.0.0.1"), ip("10.0.0.2")]);
    assert_eq!(r.label, "system");
}

#[test]
fn lookup_faults_are_classified() {
    let code = |code: u16| LookupFault::NoRecords {
        code,
        words: "No Error".into(),
    };
    assert_eq!(classify_error(code(3), Lang::En), DnsOutcome::NxDomain);
    assert_eq!(
        classify_error(code(0), Lang::En),
        DnsOutcome::Error("no records (No Error)".into())
    );
    let response = |code: u16| LookupFault::Response {
        code,
        words: "Query Refused".into(),
    };
    assert_eq!(classify_error(response(2), Lang::En), DnsOutcome::ServFail);
    assert_eq!(
        classify_error(response(5), Lang::Ja),
        DnsOutcome::Error("応答コード Query Refused".into())
    );
    assert_eq!(
        classify_error(LookupFault::TimedOut, Lang::En),
        DnsOutcome::Timeout
    );
    assert_eq!(
        classify_error(LookupFault::Other("x".into()), Lang::En),
        DnsOutcome::Error("x".into())
    );
}

#[test]
fn direct_replies() {
    let q = || Query {
        source: DnsSource::Public(ip("1.1.1.1")),
        label: "1.1.1.1".into(),
    };
    let r = direct_result(q(), DirectReply::NotSetUp("no io".into()), ms(1), Lang::En);
    assert_eq!(
        r.outcome,
        DnsOutcome::Error("resolver init failed: no io".into())
    );
    assert_eq!(r.latency_ms, None);
    let r = direct_result(q(), DirectReply::TimedOut, ms(1), Lang::En);
    assert_eq!(r.outcome, DnsOutcome::Timeout);
    let fault = DirectReply::Failed(LookupFault::TimedOut);
    let r = direct_result(q(), fault, ms(1), Lang::En);
    assert_eq!(r.latency_ms, Some(ms(1)));
    let r = direct_result(
        q(),
        DirectReply::Answered(vec![ip("::1")]),
        ms(1),
        Lang::En,
    );
    assert_eq!(r.ips, vec![ip("::1")]);
    let report = gather(Some(vec![r]));
    assert!(!report.skipped);
    assert!(gather(None).skipped);
}

// ── TCP ─────────────────────────────────────────────────────────────────

#[test]
fn pick_targets_mixes_families() {
    let ips: Vec<IpAddr> = vec![
        ip("1.2.3.4"),
        ip("1.2.3.5"),
        ip("1.2.3.6"),
        ip("2606:2800::1"),
    ];
    let picked = pick_targets(&ips);
    assert_eq!(picked.len(), 3);
    assert!(picked.iter().any(|ip| !ip.is_v4()));
    assert!(picked.iter().any(|ip| ip.is_v4()));
    assert_eq!(
        picked,
        vec![ip("1.2.3.4"), ip("2606:2800::1"), ip("1.2.3.5")]
    );
}

#[test]
fn pick_targets_drops_repeats() {
    let ips = [ip("1.2.3.4"), ip("1.2.3.4"), ip("::1"), ip("::2"), ip("::3")];
    assert_eq!(
        pick_targets(&ips),
        vec![ip("1.2.3.4"), ip("::1"), ip("::2")]
    );
    assert_eq!(pick_targets(&[ip("::1")]), vec![ip("::1")]);
    assert!(pick_targets(&[]).is_empty());
}

#[test]
fn attempts_are_summed_up() {
    let fail = |o: TcpOutcome| Attempt::Failed(o);
    let p = summarize(
        ip("192.0.2.1"),
        443,
        &[
            Attempt::Connected(ms(10)),
            fail(TcpOutcome::Timeout),
            Attempt::Connected(ms(20)),
        ],
        Lang::En,
    );
    assert_eq!(p.samples, 3);
    assert_eq!(p.successes, 2);
    assert_eq!(p.outcome, TcpOutcome::Connected);
    assert_eq!(p.min_ms, Some(ms(10)));
    assert_eq!(p.avg_ms, Some(ms(15)));
    assert_eq!(p.max_ms, Some(ms(20)));
    let error = || fail(TcpOutcome::Error("no route".into()));
    let outcome =
        |list: &[Attempt]| summarize(ip("192.0.2.1"), 443, list, Lang::En).outcome;
    assert_eq!(
        outcome(&[error(), fail(TcpOutcome::Timeout), fail(TcpOutcome::Refused)]),
        TcpOutcome::Refused
    );
    assert_eq!(
        outcome(&[error(), fail(TcpOutcome::Timeout)]),
        TcpOutcome::Timeout
    );
    assert_eq!(outcome(&[error()]), TcpOutcome::Error("no route".into()));
    assert_eq!(outcome(&[]), TcpOutcome::Error("no attempts".into()));
}

// ── TLS ─────────────────────────────────────────────────────────────────

#[test]
fn middlebox_detection() {
    assert!(looks_like_middlebox("CN=Zscaler Intermediate Root CA"));
    assert!(looks_like_middlebox("CN=FortiGate CA, O=Fortinet"));
    assert!(!looks_like_middlebox("CN=DigiCert TLS RSA SHA256 2020 CA1"));
    assert!(!looks_like_middlebox("CN=R11, O=Let's Encrypt"));
}

/// A certificate of `CN=Zscaler Root CA` that is valid until 2030-01-01.
const CERT: [u8; 223] = [
    0x30, 0x81, 0xdc, 0x30, 0x81, 0x8f, 0xa0, 0x03, 0x02, 0x01, 0x02, 0x02, 0x01, 0x01, 0x30, 0x05,
    0x06, 0x03, 0x2b, 0x65, 0x70, 0x30, 0x1a, 0x31, 0x18, 0x30, 0x16, 0x06, 0x03, 0x55, 0x04, 0x03,
    0x0c, 0x0f, 0x5a, 0x73, 0x63, 0x61, 0x6c, 0x65, 0x72, 0x20, 0x52, 0x6f, 0x6f, 0x74, 0x20, 0x43,
    0x41, 0x30, 0x1e, 0x17, 0x0d, 0x32, 0x30, 0x30, 0x31, 0x30, 0x31, 0x30, 0x30, 0x30, 0x30, 0x30,
    0x30, 0x5a, 0x17, 0x0d, 0x33, 0x30, 0x30, 0x31, 0x30, 0x31, 0x30, 0x30, 0x30, 0x30, 0x30, 0x30,
    0x5a, 0x30, 0x16, 0x31, 0x14, 0x30, 0x12, 0x06, 0x03, 0x55, 0x04, 0x03, 0x0c, 0x0b, 0x65, 0x78,
    0x61, 0x6d, 0x70, 0x6c, 0x65, 0x2e, 0x63, 0x6f, 0x6d, 0x30, 0x2a, 0x30, 0x05, 0x06, 0x03, 0x2b,
    0x65, 0x70, 0x03, 0x21, 0x00, 0x00, 0x00, 0x00, 0x00, 0x00, 0x00, 0x00, 0x00, 0x00, 0x00, 0x00,
    0x00, 0x00, 0x00, 0x00, 0x00, 0x00, 0x00, 0x00, 0x00, 0x00, 0x00, 0x00, 0x00, 0x00, 0x00, 0x00,
    0x00, 0x00, 0x00, 0x00, 0x00, 0x30, 0x05, 0x06, 0x03, 0x2b, 0x65, 0x70, 0x03, 0x41, 0x00, 0x00,
    0x00, 0x00, 0x00, 0x00, 0x00, 0x00, 0x00, 0x00, 0x00, 0x00, 0x00, 0x00, 0x00, 0x00, 0x00, 0x00,
    0x00, 0x00, 0x00, 0x00, 0x00, 0x00, 0x00, 0x00, 0x00, 0x00, 0x00, 0x00, 0x00, 0x00, 0x00, 0x00,
    0x00, 0x00, 0x00, 0x00, 0x00, 0x00, 0x00, 0x00, 0x00, 0x00, 0x00, 0x00, 0x00, 0x00, 0x00, 0x00,
    0x00, 0x00, 0x00, 0x00, 0x00, 0x00, 0x00, 0x00, 0x00, 0x00, 0x00, 0x00, 0x00, 0x00, 0x00,
];
const NOT_AFTER: i64 = 1_893_456_000;

#[test]
fn certificates_are_inspected() {
    let f = inspect_cert(&CERT, NOT_AFTER - 86_400 * 10 - 1);
    assert_eq!(f.issuer.as_deref(), Some("CN=Zscaler Root CA"));
    assert_eq!(f.days, Some(10));
    assert!(!f.expired);
    let f = inspect_cert(&CERT, NOT_AFTER + 86_400 * 2);
    assert_eq!(f.days, Some(-2));
    assert!(f.expired);
    let f = inspect_cert(b"no certificate", 0);
    assert_eq!(f.issuer, None);
    assert_eq!(f.days, None);
    assert!(!f.expired);
}

#[test]
fn days_are_rounded_towards_zero() {
    let days = |then: i64, now: i64| weigh_cert(Some(("x".into(), then)), now).days;
    assert_eq!(days(86_399, 0), Some(0));
    assert_eq!(days(0, 86_399), Some(0));
    assert_eq!(days(0, 86_401), Some(-1));
    assert_eq!(days(i64::MAX, i64::MIN), Some(213_503_982_334_601));
    assert_eq!(days(i64::MIN, i64::MAX), Some(-213_503_982_334_601));
}

#[test]
fn versions_are_named() {
    assert_eq!(version_name(0x0303), "TLS 1.2");
    assert_eq!(version_name(0x0304), "TLS 1.3");
    for (code, name) in [
        (0x0002, "SSLv2"),
        (0x0300, "SSLv3"),
        (0x0301, "TLSv1_0"),
        (0x0302, "TLSv1_1"),
        (0xfeff, "DTLSv1_0"),
        (0xfefd, "DTLSv1_2"),
        (0xfefc, "DTLSv1_3"),
        (0x0000, "ProtocolVersion(0x0)"),
        (0x7f1c, "ProtocolVersion(0x7f1c)"),
    ] {
        assert_eq!(version_name(code), name);
    }
}

fn handshake(cert: Option<Vec<u8>>) -> Handshake {
    Handshake {
        version: Some(0x0304),
        cert,
        handshake_ms: ms(30),
    }
}

#[test]
fn verified_handshake() {
    let r = verified_report(examine(handshake(Some(CERT.to_vec())), NOT_AFTER + 1));
    assert!(r.verified);
    assert_eq!(r.version.as_deref(), Some("TLS 1.3"));
    assert_eq!(r.hostname_matches, Some(true));
    assert!(r.cert_expired);
    assert!(!r.interception_suspected);
    assert_eq!(r.handshake_ms, Some(ms(30)));
    let r = verified_report(examine(handshake(None), 0));
    assert_eq!(r.presented_issuer, None);
    assert!(!r.cert_expired);
}

#[test]
fn failed_handshake() {
    let retry = examine(handshake(Some(CERT.to_vec())), 0);
    let r = failed_report("invalid peer certificate: UnknownIssuer".into(), Some(retry));
    assert!(!r.verified && r.interception_suspected && !r.cert_expired);
    assert_eq!(r.hostname_matches, None);
    assert_eq!(r.presented_issuer.as_deref(), Some("CN=Zscaler Root CA"));
    let r = failed_report("invalid peer certificate: certificate Expired".into(), None);
    assert!(r.cert_expired && r.version.is_none());
    let r = failed_report("invalid peer certificate: NotValidForName".into(), None);
    assert_eq!(r.hostname_matches, Some(false));
    let r = failed_report("certificate not valid for name \"x\"".into(), None);
    assert_eq!(r.hostname_matches, Some(false));
    let old = examine(handshake(Some(CERT.to_vec())), NOT_AFTER + 1);
    assert!(failed_report("x".into(), Some(old)).cert_expired);
}

#[test]
fn handshake_faults_in_words() {
    assert_eq!(
        fault_words(Lang::En, HandshakeFault::ConnectTimedOut),
        "TCP connect timed out"
    );
    assert_eq!(
        fault_words(Lang::Ja, HandshakeFault::ConnectFailed("x".into())),
        "TCP 接続失敗: x"
    );
    assert_eq!(
        fault_words(Lang::En, HandshakeFault::TimedOut),
        "TLS handshake timed out"
    );
    assert_eq!(fault_words(Lang::En, HandshakeFault::Failed("y".into())), "y");
    assert_eq!(fault_words(Lang::En, HandshakeFault::BadName("z".into())), "z");
}

// ── HTTP ────────────────────────────────────────────────────────────────

fn head(status: u16, location: Option<&str>) -> ResponseHead {
    ResponseHead {
        status,
        location: location.map(|s| s.to_string()),
        alt_svc: None,
        ttfb: ms(80),
        total: ms(100),
    }
}

#[test]
fn redirects_are_followed() {
    let mut f = Fetch::new("http://example.com/a/b", Lang::En);
    f.respond(head(301, Some("../c?x=1")));
    assert_eq!(f.url(), "http://example.com/c?x=1");
    f.respond(head(302, Some("https://example.org")));
    assert_eq!(f.url(), "https://example.org/");
    let mut last = head(200, None);
    last.alt_svc = Some("h3=\":443\"; ma=86400".into());
    f.respond(last);
    assert_eq!(f.phase(), FetchPhase::Reading);
    f.read(None, ms(120));
    assert_eq!(f.phase(), FetchPhase::Over);
    let r = f.into_report();
    assert_eq!(
        r.redirect_chain,
        vec![
            "301 -> http://example.com/c?x=1",
            "302 -> https://example.org/"
        ]
    );
    assert_eq!(r.status, Some(200));
    assert_eq!(r.ttfb_ms, Some(ms(80)));
    assert_eq!(r.total_ms, Some(ms(120)));
    assert!(r.h3_advertised);
    assert_eq!(r.error, None);
}

#[test]
fn redirect_limits_and_faults() {
    let mut f = Fetch::new("http://example.com/", Lang::En);
    for _ in 0..5 {
        f.respond(head(307, Some("/next")));
        assert_eq!(f.phase(), FetchPhase::Requesting);
    }
    f.respond(head(307, Some("/next")));
    let r = f.into_report();
    assert_eq!(r.error.as_deref(), Some("more than 5 redirects"));
    assert_eq!(r.status, Some(307));
    assert_eq!(r.redirect_chain.len(), 5);
    assert_eq!(r.ttfb_ms, None);

    let mut f = Fetch::new("http://example.com/", Lang::Ja);
    f.respond(head(304, None));
    assert_eq!(
        f.into_report().error.as_deref(),
        Some("リダイレクト応答に Location ヘッダがない")
    );

    let mut f = Fetch::new("http://example.com/", Lang::En);
    f.respond(head(301, Some("http://[bad")));
    assert_eq!(f.url(), "http://[bad");
    f.fail("builder error".into(), ms(7));
    let r = f.into_report();
    assert_eq!(r.error.as_deref(), Some("builder error"));
    assert_eq!(r.status, None);
    assert_eq!(r.total_ms, Some(ms(7)));

    let mut f = Fetch::new("http://example.com/", Lang::En);
    f.respond(head(500, None));
    f.read(Some("reset".into()), ms(9));
    let r = f.into_report();
    assert_eq!(r.status, Some(500));
    assert_eq!(r.error.as_deref(), Some("failed to read body: reset"));
    assert!(!r.h3_advertised);
    assert_eq!(
        not_set_up("no roots", Lang::En).error.as_deref(),
        Some("failed to build HTTP client: no roots")
    );
}

// ── QUIC ────────────────────────────────────────────────────────────────

#[test]
fn outcome_variants_are_distinguishable() {
    assert_eq!(QuicOutcome::Timeout, QuicOutcome::Timeout);
    assert_ne!(
        QuicOutcome::Timeout,
        QuicOutcome::HandshakeError("x".into())
    );
    assert_ne!(
        QuicOutcome::Established {
            handshake_ms: ms(10),
            negotiated_alpn: Some("h3".into())
        },
        QuicOutcome::Timeout
    );
}

#[test]
fn quic_ends_are_told() {
    let alpn = |bytes: &[u8]| {
        conclude(QuicEnd::Connected {
            handshake_ms: ms(10),
            alpn: Some(bytes.to_vec()),
        })
        .outcome
    };
    let established = |s: &str| QuicOutcome::Established {
        handshake_ms: ms(10),
        negotiated_alpn: Some(s.to_string()),
    };
    assert_eq!(alpn(b"h3"), established("h3"));
    assert_eq!(alpn(&[b'h', 0xff]), established("h\u{fffd}"));
    assert_eq!(conclude(QuicEnd::TimedOut).outcome, QuicOutcome::Timeout);
    assert_eq!(
        conclude(QuicEnd::Rejected("x".into())).outcome,
        QuicOutcome::HandshakeError("x".into())
    );
    assert_eq!(
        conclude(QuicEnd::LocalFault("x".into())).outcome,
        QuicOutcome::LocalError("x".into())
    );
}
