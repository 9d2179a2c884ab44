//! The message catalog.

use netblame::addr::parse_ip;
use netblame::i18n::{
    append_guidance, cert_days_left_line, detect_from, diagnosing_line, dns_ok_line,
    http_result_line, msg, parse_error, path_line, presented_issuer_line, tcp_ok_line,
    trace_hop_line, trace_hop_noreply_line, watch_runs_line, zone_guidance, Lang, MsgKey,
};
use netblame::measure::Percent;
use netblame::probe::trace::HopZone;
use netblame::ParseError;

#[test]
fn lang_detection() {
    assert_eq!(
        detect_from(&[Some("ja_JP.UTF-8"), None, Some("en_US.UTF-8")]),
        Lang::Ja
    );
    assert_eq!(
        detect_from(&[None, Some("en_US.UTF-8"), Some("ja_JP.UTF-8")]),
        Lang::En
    );
    assert_eq!(detect_from(&[Some(""), None, Some("C.UTF-8")]), Lang::En);
    assert_eq!(detect_from(&[None::<&str>, None, None]), Lang::En);
}

#[test]
fn lang_detection_ignores_case() {
    assert_eq!(detect_from(&[Some("JA_jp")]), Lang::Ja);
    assert_eq!(detect_from(&[]), Lang::En);
}

#[test]
fn fixed_messages() {
    assert_eq!(msg(Lang::En, MsgKey::VerdictLabel), "[VERDICT]");
    assert_eq!(msg(Lang::Ja, MsgKey::VerdictLabel), "【判定】");
    assert_eq!(msg(Lang::Ja, MsgKey::StageTrace), "経路トレース");
    assert_eq!(msg(Lang::En, MsgKey::StageQuic), "QUIC/HTTP3");
}

#[test]
fn lines_of_the_stages() {
    assert_eq!(
        diagnosing_line(Lang::En, "example.com", 443),
        "diagnosing example.com (port 443)…"
    );
    assert_eq!(
        dns_ok_line(Lang::Ja, "システムリゾルバ", 2, "374ms", "104.20.23.154, 172.66.147.243"),
        "システムリゾルバ: 2 件の回答 (374ms) [104.20.23.154, 172.66.147.243]"
    );
    let ip = parse_ip("2606:4700:10::6814:179a").unwrap();
    assert_eq!(
        tcp_ok_line(Lang::Ja, &ip, 443, 5, 5, "15ms", "20ms", "24ms"),
        "IPv6 2606:4700:10::6814:179a:443 接続成功 5/5 (min/avg/max 15ms/20ms/24ms)"
    );
    assert_eq!(
        cert_days_left_line(Lang::En, -3),
        "certificate valid for -3 more days"
    );
    assert_eq!(
        presented_issuer_line(Lang::En, "CN=X", true),
        "presented issuer: CN=X (possible middlebox)"
    );
    assert_eq!(
        http_result_line(
            Lang::Ja,
            "https://example.com/",
            200,
            "374ms",
            "19ms",
            "30ms",
            "95ms",
            "95ms"
        ),
        "GET https://example.com/ → 200 (DNS 374ms / 接続 19ms / TLS 30ms / TTFB 95ms / 合計 95ms)"
    );
    assert_eq!(
        path_line(Lang::Ja, 5, Percent::of(0, 5), "15ms", "23ms", "33ms", "7ms"),
        "5 回プローブ: ロス 0% / RTT min/avg/max 15ms/23ms/33ms / ジッタ 7ms"
    );
}

#[test]
fn hop_numbers_are_aligned() {
    assert_eq!(
        trace_hop_line(Lang::En, 1, "192.168.40.1", "2ms"),
        " 1  192.168.40.1  2ms"
    );
    assert_eq!(
        trace_hop_line(Lang::En, 10, "103.22.201.21", "28ms"),
        "10  103.22.201.21  28ms"
    );
    assert_eq!(trace_hop_noreply_line(Lang::Ja, 2), " 2  *  (応答なし)");
}

#[test]
fn watch_summary_line() {
    assert_eq!(
        watch_runs_line(Lang::En, 42, 40, Percent::of(40, 42)),
        "runs: 42 / ok: 40 (95%)"
    );
    assert_eq!(
        watch_runs_line(Lang::En, 0, 0, Percent::of(0, 0)),
        "runs: 0 / ok: 0 (0%)"
    );
}

#[test]
fn parse_errors_in_words() {
    assert_eq!(
        parse_error(Lang::En, &ParseError::UnsupportedScheme("ftp://x".into())),
        "unsupported scheme: ftp://x"
    );
    assert_eq!(
        parse_error(Lang::Ja, &ParseError::EmptyHost),
        "ホスト名が空です"
    );
    assert_eq!(
        parse_error(Lang::En, &ParseError::UnclosedIpv6),
        "missing ']' in IPv6 literal"
    );
    assert_eq!(
        parse_error(Lang::En, &ParseError::InvalidPort("x".into())),
        "invalid port number: x"
    );
}

#[test]
fn guidance_is_appended() {
    assert_eq!(append_guidance("a", "b"), "a — b");
    assert!(zone_guidance(Lang::En, HopZone::FarSide).contains("far side"));
    assert!(zone_guidance(Lang::Ja, HopZone::FarSide).contains("対岸"));
}
