//! The message catalog: every text for the user, in English and Japanese. The
//! rest of the library makes structured data only.

pub mod laws;
pub mod ruling;
pub mod statements;

use crate::addr::IpAddr;
use crate::measure::Percent;
use crate::report::TruncationReason;
use crate::text;
use crate::ParseError;
pub use crate::i18n::ruling::{
    append_guidance, dns_outcome_label, evidence_line, finding_line, headline, next_step,
    zone_guidance,
};
use vstd::prelude::*;

verus! {

/// The language of the output.
#[derive(Debug, Clone, Copy, PartialEq, Eq, Structural)]
pub enum Lang {
    En,
    Ja,
}

/// The language that the first value that is set and not empty stands for:
/// Japanese where it contains "ja" in any case, else English.
pub open spec fn detected(vars: Seq<Option<&str>>) -> Lang
    decreases vars.len(),
{
    if vars.len() == 0 {
        Lang::En
    } else {
        match vars.first() {
            Some(v) => if v@.len() == 0 {
                detected(vars.drop_first())
            } else if text::contains(text::lowered(v@), "ja"@) {
                Lang::Ja
            } else {
                Lang::En
            },
            None => detected(vars.drop_first()),
        }
    }
}

/// Detects the language from the values of the locale variables, in the order of
/// their precedence.
pub fn detect_from(vars: &[Option<&str>]) -> (lang: Lang)
    ensures
        lang == detected(vars@),
{
    let mut i: usize = 0;
    assert(vars@.skip(0) == vars@);
    while i < vars.len()
        invariant
            i <= vars.len(),
            detected(vars@) == detected(vars@.skip(i as int)),
        decreases vars.len() - i,
    {
        assert(vars@.skip(i as int).drop_first() == vars@.skip(i + 1));
        if let Some(v) = vars[i] {
            let chars = text::chars_of(v);
            if chars.len() > 0 {
                let low = text::to_lower(chars.as_slice());
                if text::has(low.as_slice(), "ja") {
                    return Lang::Ja;
                } else {
                    return Lang::En;
                }
            }
        }
        i = i + 1;
    }
    Lang::En
}

/// The messages without parameters.
#[derive(Debug, Clone, Copy, PartialEq, Eq, Structural)]
pub enum MsgKey {
    StageEnv,
    StageDns,
    StageTcp,
    StageTls,
    StageHttp,
    StageQuic,
    StagePath,
    StageTrace,
    NoNameservers,
    HostsNoOverride,
    NoProxyVars,
    DnsSkippedIpLiteral,
    NoResolvedIps,
    TlsSkippedNoTcp,
    HttpSkippedNoTcp,
    CertChainOk,
    TraceUnsupported,
    TraceNoData,
    VerdictLabel,
    EvidenceLabel,
    NotesLabel,
    NextStepLabel,
    Bullet,
    UnknownError,
    ErrorPrefix,
    JsonWatchConflict,
    ShareWatchConflict,
    WatchSummaryHeader,
    WatchProblemsHeader,
}

pub open spec fn msg_text(lang: Lang, key: MsgKey) -> Seq<char> {
    match key {
        MsgKey::StageEnv => match lang {
            Lang::En => "Environment"@,
            Lang::Ja => "環境"@,
        },
        MsgKey::StageDns => "DNS"@,
        MsgKey::StageTcp => "TCP"@,
        MsgKey::StageTls => "TLS"@,
        MsgKey::StageHttp => "HTTP"@,
        MsgKey::StageQuic => "QUIC/HTTP3"@,
        MsgKey::StagePath => match lang {
            Lang::En => "Path quality"@,
            Lang::Ja => "経路品質"@,
        },
        MsgKey::StageTrace => match lang {
            Lang::En => "Path trace"@,
            Lang::Ja => "経路トレース"@,
        },
        MsgKey::NoNameservers => match lang {
            Lang::En => "no nameservers found in resolv.conf"@,
            Lang::Ja => "resolv.conf にネームサーバが見つかりません"@,
        },
        MsgKey::HostsNoOverride => match lang {
            Lang::En => "/etc/hosts: no overrides"@,
            Lang::Ja => "/etc/hosts: 上書きなし"@,
        },
        MsgKey::NoProxyVars => match lang {
            Lang::En => "proxy environment variables: none"@,
            Lang::Ja => "プロキシ環境変数: なし"@,
        },
        MsgKey::DnsSkippedIpLiteral => match lang {
            Lang::En => "target is an IP literal, skipping name resolution"@,
            Lang::Ja => "ターゲットは IP リテラルのため名前解決をスキップ"@,
        },
        MsgKey::NoResolvedIps => match lang {
            Lang::En => "no IPs to connect to (name resolution failed)"@,
            Lang::Ja => "接続先 IP がありません (名前解決に失敗)"@,
        },
        MsgKey::TlsSkippedNoTcp => match lang {
            Lang::En => "skipping TLS because no TCP connection could be established"@,
            Lang::Ja => "TCP 接続が確立できないため TLS 診断をスキップ"@,
        },
        MsgKey::HttpSkippedNoTcp => match lang {
            Lang::En => "skipping HTTP because no TCP connection could be established"@,
            Lang::Ja => "TCP 接続が確立できないため HTTP 診断をスキップ"@,
        },
        MsgKey::CertChainOk => match lang {
            Lang::En => "certificate chain verified: OK, hostname matches"@,
            Lang::Ja => "証明書チェーン検証: OK / ホスト名一致"@,
        },
        MsgKey::TraceUnsupported => match lang {
            Lang::En => "the path trace is supported on Linux only, skipping"@,
            Lang::Ja => "経路トレースは Linux のみ対応のためスキップ"@,
        },
        MsgKey::TraceNoData => match lang {
            Lang::En => "the path trace got no reply"@,
            Lang::Ja => "経路トレースに応答がありません"@,
        },
        MsgKey::VerdictLabel => match lang {
            Lang::En => "[VERDICT]"@,
            Lang::Ja => "【判定】"@,
        },
        MsgKey::EvidenceLabel => match lang {
            Lang::En => "[EVIDENCE]"@,
            Lang::Ja => "【根拠】"@,
        },
        MsgKey::NotesLabel => match lang {
            Lang::En => "[NOTES]"@,
            Lang::Ja => "【所見】"@,
        },
        MsgKey::NextStepLabel => match lang {
            Lang::En => "[NEXT STEP]"@,
            Lang::Ja => "【次の一手】"@,
        },
        MsgKey::Bullet => match lang {
            Lang::En => "• "@,
            Lang::Ja => "・"@,
        },
        MsgKey::UnknownError => match lang {
            Lang::En => "unknown error"@,
            Lang::Ja => "不明なエラー"@,
        },
        MsgKey::ErrorPrefix => match lang {
            Lang::En => "error"@,
            Lang::Ja => "エラー"@,
        },
        MsgKey::JsonWatchConflict => match lang {
            Lang::En => "--json cannot be combined with --watch"@,
            Lang::Ja => "--json と --watch は同時に指定できません"@,
        },
        MsgKey::ShareWatchConflict => match lang {
            Lang::En => "--share cannot be combined with --watch"@,
            Lang::Ja => "--share と --watch は同時に指定できません"@,
        },
        MsgKey::WatchSummaryHeader => match lang {
            Lang::En => "Watch summary"@,
            Lang::Ja => "監視サマリ"@,
        },
        MsgKey::WatchProblemsHeader => match lang {
            Lang::En => "Problems seen:"@,
            Lang::Ja => "検出した問題:"@,
        },
    }
}

/// A message without parameters.
pub fn msg(lang: Lang, key: MsgKey) -> (s: &'static str)
    ensures
        s@ == msg_text(lang, key),
{
    match key {
        MsgKey::StageEnv => match lang {
            Lang::En => "Environment",
            Lang::Ja => "環境",
        },
        MsgKey::StageDns => "DNS",
        MsgKey::StageTcp => "TCP",
        MsgKey::StageTls => "TLS",
        MsgKey::StageHttp => "HTTP",
        MsgKey::StageQuic => "QUIC/HTTP3",
        MsgKey::StagePath => match lang {
            Lang::En => "Path quality",
            Lang::Ja => "経路品質",
        },
        MsgKey::StageTrace => match lang {
            Lang::En => "Path trace",
            Lang::Ja => "経路トレース",
        },
        MsgKey::NoNameservers => match lang {
            Lang::En => "no nameservers found in resolv.conf",
            Lang::Ja => "resolv.conf にネームサーバが見つかりません",
        },
        MsgKey::HostsNoOverride => match lang {
            Lang::En => "/etc/hosts: no overrides",
            Lang::Ja => "/etc/hosts: 上書きなし",
        },
        MsgKey::NoProxyVars => match lang {
            Lang::En => "proxy environment variables: none",
            Lang::Ja => "プロキシ環境変数: なし",
        },
        MsgKey::DnsSkippedIpLiteral => match lang {
            Lang::En => "target is an IP literal, skipping name resolution",
            Lang::Ja => "ターゲットは IP リテラルのため名前解決をスキップ",
        },
        MsgKey::NoResolvedIps => match lang {
            Lang::En => "no IPs to connect to (name resolution failed)",
            Lang::Ja => "接続先 IP がありません (名前解決に失敗)",
        },
        MsgKey::TlsSkippedNoTcp => match lang {
            Lang::En => "skipping TLS because no TCP connection could be established",
            Lang::Ja => "TCP 接続が確立できないため TLS 診断をスキップ",
        },
        MsgKey::HttpSkippedNoTcp => match lang {
            Lang::En => "skipping HTTP because no TCP connection could be established",
            Lang::Ja => "TCP 接続が確立できないため HTTP 診断をスキップ",
        },
        MsgKey::CertChainOk => match lang {
            Lang::En => "certificate chain verified: OK, hostname matches",
            Lang::Ja => "証明書チェーン検証: OK / ホスト名一致",
        },
        MsgKey::TraceUnsupported => match lang {
            Lang::En => "the path trace is supported on Linux only, skipping",
            Lang::Ja => "経路トレースは Linux のみ対応のためスキップ",
        },
        MsgKey::TraceNoData => match lang {
            Lang::En => "the path trace got no reply",
            Lang::Ja => "経路トレースに応答がありません",
        },
        MsgKey::VerdictLabel => match lang {
            Lang::En => "[VERDICT]",
            Lang::Ja => "【判定】",
        },
        MsgKey::EvidenceLabel => match lang {
            Lang::En => "[EVIDENCE]",
            Lang::Ja => "【根拠】",
        },
        MsgKey::NotesLabel => match lang {
            Lang::En => "[NOTES]",
            Lang::Ja => "【所見】",
        },
        MsgKey::NextStepLabel => match lang {
            Lang::En => "[NEXT STEP]",
            Lang::Ja => "【次の一手】",
        },
        MsgKey::Bullet => match lang {
            Lang::En => "• ",
            Lang::Ja => "・",
        },
        MsgKey::UnknownError => match lang {
            Lang::En => "unknown error",
            Lang::Ja => "不明なエラー",
        },
        MsgKey::ErrorPrefix => match lang {
            Lang::En => "error",
            Lang::Ja => "エラー",
        },
        MsgKey::JsonWatchConflict => match lang {
            Lang::En => "--json cannot be combined with --watch",
            Lang::Ja => "--json と --watch は同時に指定できません",
        },
        MsgKey::ShareWatchConflict => match lang {
            Lang::En => "--share cannot be combined with --watch",
            Lang::Ja => "--share と --watch は同時に指定できません",
        },
        MsgKey::WatchSummaryHeader => match lang {
            Lang::En => "Watch summary",
            Lang::Ja => "監視サマリ",
        },
        MsgKey::WatchProblemsHeader => match lang {
            Lang::En => "Problems seen:",
            Lang::Ja => "検出した問題:",
        },
    }
}

// ── The lines of the stages ─────────────────────────────────────────────

pub open spec fn diagnosing_text(lang: Lang, host: Seq<char>, port: u16) -> Seq<char> {
    match lang {
        Lang::En => "diagnosing "@ + host + " (port "@ + text::dec(port as nat) + ")…"@,
        Lang::Ja => host + " (port "@ + text::dec(port as nat) + ") を診断します…"@,
    }
}

pub fn diagnosing_line(lang: Lang, host: &str, port: u16) -> (s: String)
    ensures
        s@ == diagnosing_text(lang, host@, port),
{
    match lang {
        Lang::En => {
            let mut s = "diagnosing ".to_owned();
            s.append(host);
            s.append(" (port ");
            text::push_dec(&mut s, port as u64);
            s.append(")…");
            s
        },
        Lang::Ja => {
            let mut s = host.to_owned();
            s.append(" (port ");
            text::push_dec(&mut s, port as u64);
            s.append(") を診断します…");
            s
        },
    }
}

pub open spec fn nameservers_text(lang: Lang, list: Seq<char>) -> Seq<char> {
    match lang {
        Lang::En => "nameservers: "@ + list,
        Lang::Ja => "ネームサーバ: "@ + list,
    }
}

pub fn nameservers_line(lang: Lang, list: &str) -> (s: String)
    ensures
        s@ == nameservers_text(lang, list@),
{
    match lang {
        Lang::En => {
            let mut s = "nameservers: ".to_owned();
            s.append(list);
            s
        },
        Lang::Ja => {
            let mut s = "ネームサーバ: ".to_owned();
            s.append(list);
            s
        },
    }
}

pub open spec fn search_domains_text(lang: Lang, list: Seq<char>) -> Seq<char> {
    match lang {
        Lang::En => "search domains: "@ + list,
        Lang::Ja => "search ドメイン: "@ + list,
    }
}

pub fn search_domains_line(lang: Lang, list: &str) -> (s: String)
    ensures
        s@ == search_domains_text(lang, list@),
{
    match lang {
        Lang::En => {
            let mut s = "search domains: ".to_owned();
            s.append(list);
            s
        },
        Lang::Ja => {
            let mut s = "search ドメイン: ".to_owned();
            s.append(list);
            s
        },
    }
}

pub open spec fn hosts_override_text(lang: Lang, host: Seq<char>, ip: Seq<char>) -> Seq<char> {
    match lang {
        Lang::En => "/etc/hosts overrides "@ + host + " with "@ + ip,
        Lang::Ja => "/etc/hosts が "@ + host + " を "@ + ip + " に上書きしています"@,
    }
}

pub fn hosts_override_line(lang: Lang, host: &str, ip: &str) -> (s: String)
    ensures
        s@ == hosts_override_text(lang, host@, ip@),
{
    match lang {
        Lang::En => {
            let mut s = "/etc/hosts overrides ".to_owned();
            s.append(host);
            s.append(" with ");
            s.append(ip);
            s
        },
        Lang::Ja => {
            let mut s = "/etc/hosts が ".to_owned();
            s.append(host);
            s.append(" を ");
            s.append(ip);
            s.append(" に上書きしています");
            s
        },
    }
}

pub open spec fn proxy_detected_text(lang: Lang, key: Seq<char>, value: Seq<char>) -> Seq<char> {
    match lang {
        Lang::En => "proxy detected: "@ + key + "="@ + value,
        Lang::Ja => "プロキシ検出: "@ + key + "="@ + value,
    }
}

pub fn proxy_detected_line(lang: Lang, key: &str, value: &str) -> (s: String)
    ensures
        s@ == proxy_detected_text(lang, key@, value@),
{
    match lang {
        Lang::En => {
            let mut s = "proxy detected: ".to_owned();
            s.append(key);
            s.append("=");
            s.append(value);
            s
        },
        Lang::Ja => {
            let mut s = "プロキシ検出: ".to_owned();
            s.append(key);
            s.append("=");
            s.append(value);
            s
        },
    }
}

pub open spec fn dns_ok_text(lang: Lang, label: Seq<char>, count: usize, ms: Seq<char>, ips: Seq<char>) -> Seq<char> {
    match lang {
        Lang::En => label + ": "@ + text::dec(count as nat) + " answers ("@ + ms + ") ["@ + ips + "]"@,
        Lang::Ja => label + ": "@ + text::dec(count as nat) + " 件の回答 ("@ + ms + ") ["@ + ips + "]"@,
    }
}

pub fn dns_ok_line(lang: Lang, label: &str, count: usize, ms: &str, ips: &str) -> (s: String)
    ensures
        s@ == dns_ok_text(lang, label@, count, ms@, ips@),
{
    match lang {
        Lang::En => {
            let mut s = label.to_owned();
            s.append(": ");
            text::push_dec(&mut s, count as u64);
            s.append(" answers (");
            s.append(ms);
            s.append(") [");
            s.append(ips);
            s.append("]");
            s
        },
        Lang::Ja => {
            let mut s = label.to_owned();
            s.append(": ");
            text::push_dec(&mut s, count as u64);
            s.append(" 件の回答 (");
            s.append(ms);
            s.append(") [");
            s.append(ips);
            s.append("]");
            s
        },
    }
}

pub open spec fn dns_nxdomain_text(lang: Lang, label: Seq<char>) -> Seq<char> {
    match lang {
        Lang::En => label + ": NXDOMAIN (name does not exist)"@,
        Lang::Ja => label + ": NXDOMAIN (名前が存在しない)"@,
    }
}

pub fn dns_nxdomain_line(lang: Lang, label: &str) -> (s: String)
    ensures
        s@ == dns_nxdomain_text(lang, label@),
{
    match lang {
        Lang::En => {
            let mut s = label.to_owned();
            s.append(": NXDOMAIN (name does not exist)");
            s
        },
        Lang::Ja => {
            let mut s = label.to_owned();
            s.append(": NXDOMAIN (名前が存在しない)");
            s
        },
    }
}

pub open spec fn dns_servfail_text(label: Seq<char>) -> Seq<char> {
    label + ": SERVFAIL"@
}

pub fn dns_servfail_line(_lang: Lang, label: &str) -> (s: String)
    ensures
        s@ == dns_servfail_text(label@),
{
    let mut s = label.to_owned();
    s.append(": SERVFAIL");
    s
}

pub open spec fn dns_timeout_text(lang: Lang, label: Seq<char>) -> Seq<char> {
    match lang {
        Lang::En => label + ": timed out"@,
        Lang::Ja => label + ": タイムアウト"@,
    }
}

pub fn dns_timeout_line(lang: Lang, label: &str) -> (s: String)
    ensures
        s@ == dns_timeout_text(lang, label@),
{
    match lang {
        Lang::En => {
            let mut s = label.to_owned();
            s.append(": timed out");
            s
        },
        Lang::Ja => {
            let mut s = label.to_owned();
            s.append(": タイムアウト");
            s
        },
    }
}

pub open spec fn dns_error_text(label: Seq<char>, error: Seq<char>) -> Seq<char> {
    label + ": "@ + error
}

pub fn dns_error_line(_lang: Lang, label: &str, error: &str) -> (s: String)
    ensures
        s@ == dns_error_text(label@, error@),
{
    let mut s = label.to_owned();
    s.append(": ");
    s.append(error);
    s
}

pub open spec fn family_text(ip: IpAddr) -> Seq<char> {
    match ip {
        IpAddr::V4(..) => "IPv4"@,
        IpAddr::V6(..) => "IPv6"@,
    }
}

fn family(ip: &IpAddr) -> (s: &'static str)
    ensures
        s@ == family_text(*ip),
{
    if ip.is_v4() {
        "IPv4"
    } else {
        "IPv6"
    }
}

pub open spec fn tcp_ok_text(lang: Lang, ip: IpAddr, port: u16, successes: u32, samples: u32, min: Seq<char>, avg: Seq<char>, max: Seq<char>) -> Seq<char> {
    match lang {
        Lang::En => family_text(ip) + " "@ + ip.shown() + ":"@ + text::dec(port as nat) + " connected "@ + text::dec(successes as nat) + "/"@ + text::dec(samples as nat) + " (min/avg/max "@ + min + "/"@ + avg + "/"@ + max + ")"@,
        Lang::Ja => family_text(ip) + " "@ + ip.shown() + ":"@ + text::dec(port as nat) + " 接続成功 "@ + text::dec(successes as nat) + "/"@ + text::dec(samples as nat) + " (min/avg/max "@ + min + "/"@ + avg + "/"@ + max + ")"@,
    }
}

pub fn tcp_ok_line(lang: Lang, ip: &IpAddr, port: u16, successes: u32, samples: u32, min: &str, avg: &str, max: &str) -> (s: String)
    ensures
        s@ == tcp_ok_text(lang, *ip, port, successes, samples, min@, avg@, max@),
{
    match lang {
        Lang::En => {
            let mut s = family(ip).to_owned();
            s.append(" ");
            s.append(ip.to_text().as_str());
            s.append(":");
            text::push_dec(&mut s, port as u64);
            s.append(" connected ");
            text::push_dec(&mut s, successes as u64);
            s.append("/");
            text::push_dec(&mut s, samples as u64);
            s.append(" (min/avg/max ");
            s.append(min);
            s.append("/");
            s.append(avg);
            s.append("/");
            s.append(max);
            s.append(")");
            s
        },
        Lang::Ja => {
            let mut s = family(ip).to_owned();
            s.append(" ");
            s.append(ip.to_text().as_str());
            s.append(":");
            text::push_dec(&mut s, port as u64);
            s.append(" 接続成功 ");
            text::push_dec(&mut s, successes as u64);
            s.append("/");
            text::push_dec(&mut s, samples as u64);
            s.append(" (min/avg/max ");
            s.append(min);
            s.append("/");
            s.append(avg);
            s.append("/");
            s.append(max);
            s.append(")");
            s
        },
    }
}

pub open spec fn tcp_refused_text(lang: Lang, ip: IpAddr, port: u16) -> Seq<char> {
    match lang {
        Lang::En => family_text(ip) + " "@ + ip.shown() + ":"@ + text::dec(port as nat) + " connection refused (port closed, host is alive)"@,
        Lang::Ja => family_text(ip) + " "@ + ip.shown() + ":"@ + text::dec(port as nat) + " 接続拒否 (ポートは閉じているがホストは生存)"@,
    }
}

pub fn tcp_refused_line(lang: Lang, ip: &IpAddr, port: u16) -> (s: String)
    ensures
        s@ == tcp_refused_text(lang, *ip, port),
{
    match lang {
        Lang::En => {
            let mut s = family(ip).to_owned();
            s.append(" ");
            s.append(ip.to_text().as_str());
            s.append(":");
            text::push_dec(&mut s, port as u64);
            s.append(" connection refused (port closed, host is alive)");
            s
        },
        Lang::Ja => {
            let mut s = family(ip).to_owned();
            s.append(" ");
            s.append(ip.to_text().as_str());
            s.append(":");
            text::push_dec(&mut s, port as u64);
            s.append(" 接続拒否 (ポートは閉じているがホストは生存)");
            s
        },
    }
}

pub open spec fn tcp_timeout_text(lang: Lang, ip: IpAddr, port: u16) -> Seq<char> {
    match lang {
        Lang::En => family_text(ip) + " "@ + ip.shown() + ":"@ + text::dec(port as nat) + " timed out (filtered or unreachable)"@,
        Lang::Ja => family_text(ip) + " "@ + ip.shown() + ":"@ + text::dec(port as nat) + " タイムアウト (フィルタ/到達不能)"@,
    }
}

pub fn tcp_timeout_line(lang: Lang, ip: &IpAddr, port: u16) -> (s: String)
    ensures
        s@ == tcp_timeout_text(lang, *ip, port),
{
    match lang {
        Lang::En => {
            let mut s = family(ip).to_owned();
            s.append(" ");
            s.append(ip.to_text().as_str());
            s.append(":");
            text::push_dec(&mut s, port as u64);
            s.append(" timed out (filtered or unreachable)");
            s
        },
        Lang::Ja => {
            let mut s = family(ip).to_owned();
            s.append(" ");
            s.append(ip.to_text().as_str());
            s.append(":");
            text::push_dec(&mut s, port as u64);
            s.append(" タイムアウト (フィルタ/到達不能)");
            s
        },
    }
}

pub open spec fn tcp_error_text(lang: Lang, ip: IpAddr, port: u16, error: Seq<char>) -> Seq<char> {
    match lang {
        Lang::En => family_text(ip) + " "@ + ip.shown() + ":"@ + text::dec(port as nat) + " failed: "@ + error,
        Lang::Ja => family_text(ip) + " "@ + ip.shown() + ":"@ + text::dec(port as nat) + " 失敗: "@ + error,
    }
}

pub fn tcp_error_line(lang: Lang, ip: &IpAddr, port: u16, error: &str) -> (s: String)
    ensures
        s@ == tcp_error_text(lang, *ip, port, error@),
{
    match lang {
        Lang::En => {
            let mut s = family(ip).to_owned();
            s.append(" ");
            s.append(ip.to_text().as_str());
            s.append(":");
            text::push_dec(&mut s, port as u64);
            s.append(" failed: ");
            s.append(error);
            s
        },
        Lang::Ja => {
            let mut s = family(ip).to_owned();
            s.append(" ");
            s.append(ip.to_text().as_str());
            s.append(":");
            text::push_dec(&mut s, port as u64);
            s.append(" 失敗: ");
            s.append(error);
            s
        },
    }
}

pub open spec fn tls_handshake_ok_text(lang: Lang, version: Seq<char>, ms: Seq<char>) -> Seq<char> {
    match lang {
        Lang::En => "handshake OK: "@ + version + " ("@ + ms + ")"@,
        Lang::Ja => "ハンドシェイク成功: "@ + version + " ("@ + ms + ")"@,
    }
}

pub fn tls_handshake_ok_line(lang: Lang, version: &str, ms: &str) -> (s: String)
    ensures
        s@ == tls_handshake_ok_text(lang, version@, ms@),
{
    match lang {
        Lang::En => {
            let mut s = "handshake OK: ".to_owned();
            s.append(version);
            s.append(" (");
            s.append(ms);
            s.append(")");
            s
        },
        Lang::Ja => {
            let mut s = "ハンドシェイク成功: ".to_owned();
            s.append(version);
            s.append(" (");
            s.append(ms);
            s.append(")");
            s
        },
    }
}

pub open spec fn cert_expired_ago_text(lang: Lang, days: i64) -> Seq<char> {
    match lang {
        Lang::En => "certificate expired "@ + text::signed_dec(days as int) + " days ago"@,
        Lang::Ja => "証明書は "@ + text::signed_dec(days as int) + " 日前に失効"@,
    }
}

pub fn cert_expired_ago_line(lang: Lang, days: i64) -> (s: String)
    ensures
        s@ == cert_expired_ago_text(lang, days),
{
    match lang {
        Lang::En => {
            let mut s = "certificate expired ".to_owned();
            s.append(text::signed_text(days).as_str());
            s.append(" days ago");
            s
        },
        Lang::Ja => {
            let mut s = "証明書は ".to_owned();
            s.append(text::signed_text(days).as_str());
            s.append(" 日前に失効");
            s
        },
    }
}

pub open spec fn cert_days_left_text(lang: Lang, days: i64) -> Seq<char> {
    match lang {
        Lang::En => "certificate valid for "@ + text::signed_dec(days as int) + " more days"@,
        Lang::Ja => "証明書の残り有効期間: "@ + text::signed_dec(days as int) + " 日"@,
    }
}

pub fn cert_days_left_line(lang: Lang, days: i64) -> (s: String)
    ensures
        s@ == cert_days_left_text(lang, days),
{
    match lang {
        Lang::En => {
            let mut s = "certificate valid for ".to_owned();
            s.append(text::signed_text(days).as_str());
            s.append(" more days");
            s
        },
        Lang::Ja => {
            let mut s = "証明書の残り有効期間: ".to_owned();
            s.append(text::signed_text(days).as_str());
            s.append(" 日");
            s
        },
    }
}

pub open spec fn cert_verify_failed_text(lang: Lang, error: Seq<char>) -> Seq<char> {
    match lang {
        Lang::En => "certificate verification failed: "@ + error,
        Lang::Ja => "証明書検証失敗: "@ + error,
    }
}

pub fn cert_verify_failed_line(lang: Lang, error: &str) -> (s: String)
    ensures
        s@ == cert_verify_failed_text(lang, error@),
{
    match lang {
        Lang::En => {
            let mut s = "certificate verification failed: ".to_owned();
            s.append(error);
            s
        },
        Lang::Ja => {
            let mut s = "証明書検証失敗: ".to_owned();
            s.append(error);
            s
        },
    }
}

pub open spec fn presented_issuer_text(
    lang: Lang,
    issuer: Seq<char>,
    middlebox_suspected: bool,
) -> Seq<char> {
    match lang {
        Lang::En => if middlebox_suspected {
            "presented issuer: "@ + issuer + " (possible middlebox)"@
        } else {
            "presented issuer: "@ + issuer
        },
        Lang::Ja => if middlebox_suspected {
            "提示された発行者: "@ + issuer + " (ミドルボックスの疑い)"@
        } else {
            "提示された発行者: "@ + issuer
        },
    }
}

pub fn presented_issuer_line(lang: Lang, issuer: &str, middlebox_suspected: bool) -> (s: String)
    ensures
        s@ == presented_issuer_text(lang, issuer@, middlebox_suspected),
{
    let mut s = match lang {
        Lang::En => "presented issuer: ".to_owned(),
        Lang::Ja => "提示された発行者: ".to_owned(),
    };
    s.append(issuer);
    if middlebox_suspected {
        match lang {
            Lang::En => s.append(" (possible middlebox)"),
            Lang::Ja => s.append(" (ミドルボックスの疑い)"),
        }
    }
    s
}

pub open spec fn http_redirect_text(lang: Lang, hop: Seq<char>) -> Seq<char> {
    match lang {
        Lang::En => "redirect: "@ + hop,
        Lang::Ja => "リダイレクト: "@ + hop,
    }
}

pub fn http_redirect_line(lang: Lang, hop: &str) -> (s: String)
    ensures
        s@ == http_redirect_text(lang, hop@),
{
    match lang {
        Lang::En => {
            let mut s = "redirect: ".to_owned();
            s.append(hop);
            s
        },
        Lang::Ja => {
            let mut s = "リダイレクト: ".to_owned();
            s.append(hop);
            s
        },
    }
}

pub open spec fn http_result_text(lang: Lang, url: Seq<char>, status: u16, dns: Seq<char>, connect: Seq<char>, tls: Seq<char>, ttfb: Seq<char>, total: Seq<char>) -> Seq<char> {
    match lang {
        Lang::En => "GET "@ + url + " → "@ + text::dec(status as nat) + " (DNS "@ + dns + " / connect "@ + connect + " / TLS "@ + tls + " / TTFB "@ + ttfb + " / total "@ + total + ")"@,
        Lang::Ja => "GET "@ + url + " → "@ + text::dec(status as nat) + " (DNS "@ + dns + " / 接続 "@ + connect + " / TLS "@ + tls + " / TTFB "@ + ttfb + " / 合計 "@ + total + ")"@,
    }
}

pub fn http_result_line(lang: Lang, url: &str, status: u16, dns: &str, connect: &str, tls: &str, ttfb: &str, total: &str) -> (s: String)
    ensures
        s@ == http_result_text(lang, url@, status, dns@, connect@, tls@, ttfb@, total@),
{
    match lang {
        Lang::En => {
            let mut s = "GET ".to_owned();
            s.append(url);
            s.append(" → ");
            text::push_dec(&mut s, status as u64);
            s.append(" (DNS ");
            s.append(dns);
            s.append(" / connect ");
            s.append(connect);
            s.append(" / TLS ");
            s.append(tls);
            s.append(" / TTFB ");
            s.append(ttfb);
            s.append(" / total ");
            s.append(total);
            s.append(")");
            s
        },
        Lang::Ja => {
            let mut s = "GET ".to_owned();
            s.append(url);
            s.append(" → ");
            text::push_dec(&mut s, status as u64);
            s.append(" (DNS ");
            s.append(dns);
            s.append(" / 接続 ");
            s.append(connect);
            s.append(" / TLS ");
            s.append(tls);
            s.append(" / TTFB ");
            s.append(ttfb);
            s.append(" / 合計 ");
            s.append(total);
            s.append(")");
            s
        },
    }
}

pub open spec fn http_status_with_error_text(lang: Lang, url: Seq<char>, status: u16, error: Seq<char>) -> Seq<char> {
    match lang {
        Lang::En => "GET "@ + url + " → "@ + text::dec(status as nat) + " but errored: "@ + error,
        Lang::Ja => "GET "@ + url + " → "@ + text::dec(status as nat) + " だがエラー: "@ + error,
    }
}

pub fn http_status_with_error_line(lang: Lang, url: &str, status: u16, error: &str) -> (s: String)
    ensures
        s@ == http_status_with_error_text(lang, url@, status, error@),
{
    match lang {
        Lang::En => {
            let mut s = "GET ".to_owned();
            s.append(url);
            s.append(" → ");
            text::push_dec(&mut s, status as u64);
            s.append(" but errored: ");
            s.append(error);
            s
        },
        Lang::Ja => {
            let mut s = "GET ".to_owned();
            s.append(url);
            s.append(" → ");
            text::push_dec(&mut s, status as u64);
            s.append(" だがエラー: ");
            s.append(error);
            s
        },
    }
}

pub open spec fn http_failed_text(lang: Lang, url: Seq<char>, error: Seq<char>) -> Seq<char> {
    match lang {
        Lang::En => "GET "@ + url + " failed: "@ + error,
        Lang::Ja => "GET "@ + url + " 失敗: "@ + error,
    }
}

pub fn http_failed_line(lang: Lang, url: &str, error: &str) -> (s: String)
    ensures
        s@ == http_failed_text(lang, url@, error@),
{
    match lang {
        Lang::En => {
            let mut s = "GET ".to_owned();
            s.append(url);
            s.append(" failed: ");
            s.append(error);
            s
        },
        Lang::Ja => {
            let mut s = "GET ".to_owned();
            s.append(url);
            s.append(" 失敗: ");
            s.append(error);
            s
        },
    }
}

pub open spec fn http_no_result_text(lang: Lang, url: Seq<char>) -> Seq<char> {
    match lang {
        Lang::En => "GET "@ + url + ": no result"@,
        Lang::Ja => "GET "@ + url + ": 結果なし"@,
    }
}

pub fn http_no_result_line(lang: Lang, url: &str) -> (s: String)
    ensures
        s@ == http_no_result_text(lang, url@),
{
    match lang {
        Lang::En => {
            let mut s = "GET ".to_owned();
            s.append(url);
            s.append(": no result");
            s
        },
        Lang::Ja => {
            let mut s = "GET ".to_owned();
            s.append(url);
            s.append(": 結果なし");
            s
        },
    }
}

pub open spec fn quic_handshake_ok_text(lang: Lang, ms: Seq<char>, alpn: Seq<char>) -> Seq<char> {
    match lang {
        Lang::En => "QUIC handshake OK: "@ + ms + " (ALPN "@ + alpn + ")"@,
        Lang::Ja => "QUIC ハンドシェイク成功: "@ + ms + " (ALPN "@ + alpn + ")"@,
    }
}

pub fn quic_handshake_ok_line(lang: Lang, ms: &str, alpn: &str) -> (s: String)
    ensures
        s@ == quic_handshake_ok_text(lang, ms@, alpn@),
{
    match lang {
        Lang::En => {
            let mut s = "QUIC handshake OK: ".to_owned();
            s.append(ms);
            s.append(" (ALPN ");
            s.append(alpn);
            s.append(")");
            s
        },
        Lang::Ja => {
            let mut s = "QUIC ハンドシェイク成功: ".to_owned();
            s.append(ms);
            s.append(" (ALPN ");
            s.append(alpn);
            s.append(")");
            s
        },
    }
}

pub open spec fn quic_timeout_text(lang: Lang, port: u16) -> Seq<char> {
    match lang {
        Lang::En => "QUIC handshake timed out (no response on UDP port "@ + text::dec(port as nat) + ")"@,
        Lang::Ja => "QUIC ハンドシェイクがタイムアウト (UDP ポート "@ + text::dec(port as nat) + " から応答なし)"@,
    }
}

pub fn quic_timeout_line(lang: Lang, port: u16) -> (s: String)
    ensures
        s@ == quic_timeout_text(lang, port),
{
    match lang {
        Lang::En => {
            let mut s = "QUIC handshake timed out (no response on UDP port ".to_owned();
            text::push_dec(&mut s, port as u64);
            s.append(")");
            s
        },
        Lang::Ja => {
            let mut s = "QUIC ハンドシェイクがタイムアウト (UDP ポート ".to_owned();
            text::push_dec(&mut s, port as u64);
            s.append(" から応答なし)");
            s
        },
    }
}

pub open spec fn quic_handshake_error_text(lang: Lang, error: Seq<char>) -> Seq<char> {
    match lang {
        Lang::En => "QUIC handshake failed: "@ + error,
        Lang::Ja => "QUIC ハンドシェイク失敗: "@ + error,
    }
}

pub fn quic_handshake_error_line(lang: Lang, error: &str) -> (s: String)
    ensures
        s@ == quic_handshake_error_text(lang, error@),
{
    match lang {
        Lang::En => {
            let mut s = "QUIC handshake failed: ".to_owned();
            s.append(error);
            s
        },
        Lang::Ja => {
            let mut s = "QUIC ハンドシェイク失敗: ".to_owned();
            s.append(error);
            s
        },
    }
}

pub open spec fn quic_local_error_text(lang: Lang, error: Seq<char>) -> Seq<char> {
    match lang {
        Lang::En => "the QUIC probe could not run: "@ + error,
        Lang::Ja => "QUIC プローブを実行できません: "@ + error,
    }
}

pub fn quic_local_error_line(lang: Lang, error: &str) -> (s: String)
    ensures
        s@ == quic_local_error_text(lang, error@),
{
    match lang {
        Lang::En => {
            let mut s = "the QUIC probe could not run: ".to_owned();
            s.append(error);
            s
        },
        Lang::Ja => {
            let mut s = "QUIC プローブを実行できません: ".to_owned();
            s.append(error);
            s
        },
    }
}

pub open spec fn h3_advertised_text(lang: Lang, alt_svc: Seq<char>) -> Seq<char> {
    match lang {
        Lang::En => "HTTP/3 is advertised (alt-svc: "@ + alt_svc + ")"@,
        Lang::Ja => "HTTP/3 の広告あり (alt-svc: "@ + alt_svc + ")"@,
    }
}

pub fn h3_advertised_line(lang: Lang, alt_svc: &str) -> (s: String)
    ensures
        s@ == h3_advertised_text(lang, alt_svc@),
{
    match lang {
        Lang::En => {
            let mut s = "HTTP/3 is advertised (alt-svc: ".to_owned();
            s.append(alt_svc);
            s.append(")");
            s
        },
        Lang::Ja => {
            let mut s = "HTTP/3 の広告あり (alt-svc: ".to_owned();
            s.append(alt_svc);
            s.append(")");
            s
        },
    }
}

pub open spec fn h3_not_advertised_text(lang: Lang) -> Seq<char> {
    match lang {
        Lang::En => "HTTP/3 is not advertised"@,
        Lang::Ja => "HTTP/3 の広告なし"@,
    }
}

pub fn h3_not_advertised_line(lang: Lang) -> (s: String)
    ensures
        s@ == h3_not_advertised_text(lang),
{
    match lang {
        Lang::En => "HTTP/3 is not advertised".to_owned(),
        Lang::Ja => "HTTP/3 の広告なし".to_owned(),
    }
}

pub open spec fn path_text(lang: Lang, sent: u32, loss_pct: Percent, min: Seq<char>, avg: Seq<char>, max: Seq<char>, jitter: Seq<char>) -> Seq<char> {
    match lang {
        Lang::En => text::dec(sent as nat) + " probes: loss "@ + text::dec(loss_pct.shown()) + "% / RTT min/avg/max "@ + min + "/"@ + avg + "/"@ + max + " / jitter "@ + jitter,
        Lang::Ja => text::dec(sent as nat) + " 回プローブ: ロス "@ + text::dec(loss_pct.shown()) + "% / RTT min/avg/max "@ + min + "/"@ + avg + "/"@ + max + " / ジッタ "@ + jitter,
    }
}

pub fn path_line(lang: Lang, sent: u32, loss_pct: Percent, min: &str, avg: &str, max: &str, jitter: &str) -> (s: String)
    ensures
        s@ == path_text(lang, sent, loss_pct, min@, avg@, max@, jitter@),
{
    match lang {
        Lang::En => {
            let mut s = text::dec_text(sent as u64);
            s.append(" probes: loss ");
            text::push_dec(&mut s, loss_pct.to_shown());
            s.append("% / RTT min/avg/max ");
            s.append(min);
            s.append("/");
            s.append(avg);
            s.append("/");
            s.append(max);
            s.append(" / jitter ");
            s.append(jitter);
            s
        },
        Lang::Ja => {
            let mut s = text::dec_text(sent as u64);
            s.append(" 回プローブ: ロス ");
            text::push_dec(&mut s, loss_pct.to_shown());
            s.append("% / RTT min/avg/max ");
            s.append(min);
            s.append("/");
            s.append(avg);
            s.append("/");
            s.append(max);
            s.append(" / ジッタ ");
            s.append(jitter);
            s
        },
    }
}

/// A hop number, right-aligned in two columns.
pub open spec fn padded(n: u8) -> Seq<char> {
    if n < 10 {
        " "@ + text::dec(n as nat)
    } else {
        text::dec(n as nat)
    }
}

fn pad(n: u8) -> (s: String)
    ensures
        s@ == padded(n),
{
    if n < 10 {
        let mut s = " ".to_owned();
        text::push_dec(&mut s, n as u64);
        s
    } else {
        text::dec_text(n as u64)
    }
}

pub open spec fn trace_failed_text(lang: Lang, error: Seq<char>) -> Seq<char> {
    match lang {
        Lang::En => "path trace failed: "@ + error,
        Lang::Ja => "経路トレース失敗: "@ + error,
    }
}

pub fn trace_failed_line(lang: Lang, error: &str) -> (s: String)
    ensures
        s@ == trace_failed_text(lang, error@),
{
    match lang {
        Lang::En => {
            let mut s = "path trace failed: ".to_owned();
            s.append(error);
            s
        },
        Lang::Ja => {
            let mut s = "経路トレース失敗: ".to_owned();
            s.append(error);
            s
        },
    }
}

pub open spec fn trace_hop_text(index: u8, ip: Seq<char>, ms: Seq<char>) -> Seq<char> {
    padded(index) + "  "@ + ip + "  "@ + ms
}

pub fn trace_hop_line(_lang: Lang, index: u8, ip: &str, ms: &str) -> (s: String)
    ensures
        s@ == trace_hop_text(index, ip@, ms@),
{
    let mut s = pad(index);
    s.append("  ");
    s.append(ip);
    s.append("  ");
    s.append(ms);
    s
}

pub open spec fn trace_hop_noreply_text(lang: Lang, index: u8) -> Seq<char> {
    match lang {
        Lang::En => padded(index) + "  *  (no reply)"@,
        Lang::Ja => padded(index) + "  *  (応答なし)"@,
    }
}

pub fn trace_hop_noreply_line(lang: Lang, index: u8) -> (s: String)
    ensures
        s@ == trace_hop_noreply_text(lang, index),
{
    match lang {
        Lang::En => {
            let mut s = pad(index);
            s.append("  *  (no reply)");
            s
        },
        Lang::Ja => {
            let mut s = pad(index);
            s.append("  *  (応答なし)");
            s
        },
    }
}

pub open spec fn trace_dest_reached_text(lang: Lang, hops: u8) -> Seq<char> {
    match lang {
        Lang::En => "destination reached ("@ + text::dec(hops as nat) + " hops)"@,
        Lang::Ja => "宛先に到達 ("@ + text::dec(hops as nat) + " ホップ)"@,
    }
}

pub fn trace_dest_reached_line(lang: Lang, hops: u8) -> (s: String)
    ensures
        s@ == trace_dest_reached_text(lang, hops),
{
    match lang {
        Lang::En => {
            let mut s = "destination reached (".to_owned();
            text::push_dec(&mut s, hops as u64);
            s.append(" hops)");
            s
        },
        Lang::Ja => {
            let mut s = "宛先に到達 (".to_owned();
            text::push_dec(&mut s, hops as u64);
            s.append(" ホップ)");
            s
        },
    }
}

pub open spec fn path_mtu_text(lang: Lang, mtu: u16) -> Seq<char> {
    match lang {
        Lang::En => "path MTU: "@ + text::dec(mtu as nat),
        Lang::Ja => "経路 MTU: "@ + text::dec(mtu as nat),
    }
}

pub fn path_mtu_line(lang: Lang, mtu: u16) -> (s: String)
    ensures
        s@ == path_mtu_text(lang, mtu),
{
    match lang {
        Lang::En => {
            let mut s = "path MTU: ".to_owned();
            text::push_dec(&mut s, mtu as u64);
            s
        },
        Lang::Ja => {
            let mut s = "経路 MTU: ".to_owned();
            text::push_dec(&mut s, mtu as u64);
            s
        },
    }
}

pub open spec fn truncated_header_text(lang: Lang) -> Seq<char> {
    match lang {
        Lang::En => "The diagnosis was cut short; this is a partial result"@,
        Lang::Ja => "診断は途中で打ち切られました (部分的な結果です)"@,
    }
}

pub fn truncated_header_line(lang: Lang) -> (s: String)
    ensures
        s@ == truncated_header_text(lang),
{
    match lang {
        Lang::En => "The diagnosis was cut short; this is a partial result".to_owned(),
        Lang::Ja => "診断は途中で打ち切られました (部分的な結果です)".to_owned(),
    }
}

pub open spec fn truncation_reason_text(lang: Lang, reason: TruncationReason) -> Seq<char> {
    match reason {
        TruncationReason::MaxTimeExceeded => match lang {
            Lang::En => "reason: --max-time was exceeded"@,
            Lang::Ja => "理由: --max-time を超過"@,
        },
        TruncationReason::Interrupted => match lang {
            Lang::En => "reason: interrupted (Ctrl-C)"@,
            Lang::Ja => "理由: 割り込み (Ctrl-C)"@,
        },
    }
}

pub fn truncation_reason_line(lang: Lang, reason: TruncationReason) -> (s: String)
    ensures
        s@ == truncation_reason_text(lang, reason),
{
    match reason {
        TruncationReason::MaxTimeExceeded => match lang {
            Lang::En => "reason: --max-time was exceeded".to_owned(),
            Lang::Ja => "理由: --max-time を超過".to_owned(),
        },
        TruncationReason::Interrupted => match lang {
            Lang::En => "reason: interrupted (Ctrl-C)".to_owned(),
            Lang::Ja => "理由: 割り込み (Ctrl-C)".to_owned(),
        },
    }
}

pub open spec fn stages_ran_text(lang: Lang, list: Seq<char>) -> Seq<char> {
    match lang {
        Lang::En => "stages run: "@ + list,
        Lang::Ja => "実行したステージ: "@ + list,
    }
}

pub fn stages_ran_line(lang: Lang, list: &str) -> (s: String)
    ensures
        s@ == stages_ran_text(lang, list@),
{
    match lang {
        Lang::En => {
            let mut s = "stages run: ".to_owned();
            s.append(list);
            s
        },
        Lang::Ja => {
            let mut s = "実行したステージ: ".to_owned();
            s.append(list);
            s
        },
    }
}

pub open spec fn stages_skipped_text(lang: Lang, list: Seq<char>) -> Seq<char> {
    match lang {
        Lang::En => "stages skipped: "@ + list,
        Lang::Ja => "スキップしたステージ: "@ + list,
    }
}

pub fn stages_skipped_line(lang: Lang, list: &str) -> (s: String)
    ensures
        s@ == stages_skipped_text(lang, list@),
{
    match lang {
        Lang::En => {
            let mut s = "stages skipped: ".to_owned();
            s.append(list);
            s
        },
        Lang::Ja => {
            let mut s = "スキップしたステージ: ".to_owned();
            s.append(list);
            s
        },
    }
}

pub open spec fn json_serialize_failed_text(lang: Lang, error: Seq<char>) -> Seq<char> {
    match lang {
        Lang::En => "failed to serialize JSON: "@ + error,
        Lang::Ja => "JSON 出力に失敗: "@ + error,
    }
}

pub fn json_serialize_failed(lang: Lang, error: &str) -> (s: String)
    ensures
        s@ == json_serialize_failed_text(lang, error@),
{
    match lang {
        Lang::En => {
            let mut s = "failed to serialize JSON: ".to_owned();
            s.append(error);
            s
        },
        Lang::Ja => {
            let mut s = "JSON 出力に失敗: ".to_owned();
            s.append(error);
            s
        },
    }
}

pub open spec fn share_success_text(lang: Lang, url: Seq<char>) -> Seq<char> {
    match lang {
        Lang::En => "Report shared: "@ + url,
        Lang::Ja => "レポートを共有しました: "@ + url,
    }
}

pub fn share_success_line(lang: Lang, url: &str) -> (s: String)
    ensures
        s@ == share_success_text(lang, url@),
{
    match lang {
        Lang::En => {
            let mut s = "Report shared: ".to_owned();
            s.append(url);
            s
        },
        Lang::Ja => {
            let mut s = "レポートを共有しました: ".to_owned();
            s.append(url);
            s
        },
    }
}

pub open spec fn share_failed_text(lang: Lang, error: Seq<char>) -> Seq<char> {
    match lang {
        Lang::En => "failed to share the report: "@ + error,
        Lang::Ja => "レポートの共有に失敗: "@ + error,
    }
}

pub fn share_failed_line(lang: Lang, error: &str) -> (s: String)
    ensures
        s@ == share_failed_text(lang, error@),
{
    match lang {
        Lang::En => {
            let mut s = "failed to share the report: ".to_owned();
            s.append(error);
            s
        },
        Lang::Ja => {
            let mut s = "レポートの共有に失敗: ".to_owned();
            s.append(error);
            s
        },
    }
}

// ── Errors of the target ────────────────────────────────────────────────

pub open spec fn parse_error_text(lang: Lang, e: ParseError) -> Seq<char> {
    match e {
        ParseError::UnsupportedScheme(raw) => match lang {
            Lang::En => "unsupported scheme: "@ + raw@,
            Lang::Ja => "未対応のスキームです: "@ + raw@,
        },
        ParseError::EmptyHost => match lang {
            Lang::En => "empty host name"@,
            Lang::Ja => "ホスト名が空です"@,
        },
        ParseError::UnclosedIpv6 => match lang {
            Lang::En => "missing ']' in IPv6 literal"@,
            Lang::Ja => "IPv6 リテラルの ']' がありません"@,
        },
        ParseError::InvalidPort(p) => match lang {
            Lang::En => "invalid port number: "@ + p@,
            Lang::Ja => "ポート番号が不正です: "@ + p@,
        },
    }
}

/// Puts a parse error into words.
pub fn parse_error(lang: Lang, e: &ParseError) -> (s: String)
    ensures
        s@ == parse_error_text(lang, *e),
{
    match e {
        ParseError::UnsupportedScheme(raw) => match lang {
            Lang::En => {
                let mut s = "unsupported scheme: ".to_owned();
                s.append(raw.as_str());
                s
            },
            Lang::Ja => {
                let mut s = "未対応のスキームです: ".to_owned();
                s.append(raw.as_str());
                s
            },
        },
        ParseError::EmptyHost => match lang {
            Lang::En => "empty host name".to_owned(),
            Lang::Ja => "ホスト名が空です".to_owned(),
        },
        ParseError::UnclosedIpv6 => match lang {
            Lang::En => "missing ']' in IPv6 literal".to_owned(),
            Lang::Ja => "IPv6 リテラルの ']' がありません".to_owned(),
        },
        ParseError::InvalidPort(p) => match lang {
            Lang::En => {
                let mut s = "invalid port number: ".to_owned();
                s.append(p.as_str());
                s
            },
            Lang::Ja => {
                let mut s = "ポート番号が不正です: ".to_owned();
                s.append(p.as_str());
                s
            },
        },
    }
}

// ── Texts that the probes put into a report ─────────────────────────────

pub open spec fn label_system_resolver_text(lang: Lang) -> Seq<char> {
    match lang {
        Lang::En => "system resolver"@,
        Lang::Ja => "システムリゾルバ"@,
    }
}

pub fn label_system_resolver(lang: Lang) -> (s: String)
    ensures
        s@ == label_system_resolver_text(lang),
{
    match lang {
        Lang::En => "system resolver".to_owned(),
        Lang::Ja => "システムリゾルバ".to_owned(),
    }
}

pub open spec fn label_local_ns_text(lang: Lang, ns: IpAddr) -> Seq<char> {
    match lang {
        Lang::En => "local "@ + ns.shown(),
        Lang::Ja => "ローカル "@ + ns.shown(),
    }
}

pub fn label_local_ns(lang: Lang, ns: &IpAddr) -> (s: String)
    ensures
        s@ == label_local_ns_text(lang, *ns),
{
    match lang {
        Lang::En => {
            let mut s = "local ".to_owned();
            s.append(ns.to_text().as_str());
            s
        },
        Lang::Ja => {
            let mut s = "ローカル ".to_owned();
            s.append(ns.to_text().as_str());
            s
        },
    }
}

pub open spec fn probe_resolver_init_failed_text(lang: Lang, error: Seq<char>) -> Seq<char> {
    match lang {
        Lang::En => "resolver init failed: "@ + error,
        Lang::Ja => "リゾルバ初期化失敗: "@ + error,
    }
}

pub fn probe_resolver_init_failed(lang: Lang, error: &str) -> (s: String)
    ensures
        s@ == probe_resolver_init_failed_text(lang, error@),
{
    match lang {
        Lang::En => {
            let mut s = "resolver init failed: ".to_owned();
            s.append(error);
            s
        },
        Lang::Ja => {
            let mut s = "リゾルバ初期化失敗: ".to_owned();
            s.append(error);
            s
        },
    }
}

pub open spec fn probe_no_records_text(lang: Lang, code: Seq<char>) -> Seq<char> {
    match lang {
        Lang::En => "no records ("@ + code + ")"@,
        Lang::Ja => "レコードなし ("@ + code + ")"@,
    }
}

pub fn probe_no_records(lang: Lang, code: &str) -> (s: String)
    ensures
        s@ == probe_no_records_text(lang, code@),
{
    match lang {
        Lang::En => {
            let mut s = "no records (".to_owned();
            s.append(code);
            s.append(")");
            s
        },
        Lang::Ja => {
            let mut s = "レコードなし (".to_owned();
            s.append(code);
            s.append(")");
            s
        },
    }
}

pub open spec fn probe_response_code_text(lang: Lang, code: Seq<char>) -> Seq<char> {
    match lang {
        Lang::En => "response code "@ + code,
        Lang::Ja => "応答コード "@ + code,
    }
}

pub fn probe_response_code(lang: Lang, code: &str) -> (s: String)
    ensures
        s@ == probe_response_code_text(lang, code@),
{
    match lang {
        Lang::En => {
            let mut s = "response code ".to_owned();
            s.append(code);
            s
        },
        Lang::Ja => {
            let mut s = "応答コード ".to_owned();
            s.append(code);
            s
        },
    }
}

pub open spec fn probe_no_attempts_text(lang: Lang) -> Seq<char> {
    match lang {
        Lang::En => "no attempts"@,
        Lang::Ja => "試行なし"@,
    }
}

pub fn probe_no_attempts(lang: Lang) -> (s: String)
    ensures
        s@ == probe_no_attempts_text(lang),
{
    match lang {
        Lang::En => "no attempts".to_owned(),
        Lang::Ja => "試行なし".to_owned(),
    }
}

pub open spec fn probe_tcp_connect_timeout_text(lang: Lang) -> Seq<char> {
    match lang {
        Lang::En => "TCP connect timed out"@,
        Lang::Ja => "TCP 接続タイムアウト"@,
    }
}

pub fn probe_tcp_connect_timeout(lang: Lang) -> (s: String)
    ensures
        s@ == probe_tcp_connect_timeout_text(lang),
{
    match lang {
        Lang::En => "TCP connect timed out".to_owned(),
        Lang::Ja => "TCP 接続タイムアウト".to_owned(),
    }
}

pub open spec fn probe_tcp_connect_failed_text(lang: Lang, error: Seq<char>) -> Seq<char> {
    match lang {
        Lang::En => "TCP connect failed: "@ + error,
        Lang::Ja => "TCP 接続失敗: "@ + error,
    }
}

pub fn probe_tcp_connect_failed(lang: Lang, error: &str) -> (s: String)
    ensures
        s@ == probe_tcp_connect_failed_text(lang, error@),
{
    match lang {
        Lang::En => {
            let mut s = "TCP connect failed: ".to_owned();
            s.append(error);
            s
        },
        Lang::Ja => {
            let mut s = "TCP 接続失敗: ".to_owned();
            s.append(error);
            s
        },
    }
}

pub open spec fn probe_tls_handshake_timeout_text(lang: Lang) -> Seq<char> {
    match lang {
        Lang::En => "TLS handshake timed out"@,
        Lang::Ja => "TLS ハンドシェイクタイムアウト"@,
    }
}

pub fn probe_tls_handshake_timeout(lang: Lang) -> (s: String)
    ensures
        s@ == probe_tls_handshake_timeout_text(lang),
{
    match lang {
        Lang::En => "TLS handshake timed out".to_owned(),
        Lang::Ja => "TLS ハンドシェイクタイムアウト".to_owned(),
    }
}

pub open spec fn probe_http_client_init_failed_text(lang: Lang, error: Seq<char>) -> Seq<char> {
    match lang {
        Lang::En => "failed to build HTTP client: "@ + error,
        Lang::Ja => "HTTP クライアント初期化失敗: "@ + error,
    }
}

pub fn probe_http_client_init_failed(lang: Lang, error: &str) -> (s: String)
    ensures
        s@ == probe_http_client_init_failed_text(lang, error@),
{
    match lang {
        Lang::En => {
            let mut s = "failed to build HTTP client: ".to_owned();
            s.append(error);
            s
        },
        Lang::Ja => {
            let mut s = "HTTP クライアント初期化失敗: ".to_owned();
            s.append(error);
            s
        },
    }
}

pub open spec fn probe_too_many_redirects_text(lang: Lang, max: usize) -> Seq<char> {
    match lang {
        Lang::En => "more than "@ + text::dec(max as nat) + " redirects"@,
        Lang::Ja => "リダイレクトが "@ + text::dec(max as nat) + " 回を超過"@,
    }
}

pub fn probe_too_many_redirects(lang: Lang, max: usize) -> (s: String)
    ensures
        s@ == probe_too_many_redirects_text(lang, max),
{
    match lang {
        Lang::En => {
            let mut s = "more than ".to_owned();
            text::push_dec(&mut s, max as u64);
            s.append(" redirects");
            s
        },
        Lang::Ja => {
            let mut s = "リダイレクトが ".to_owned();
            text::push_dec(&mut s, max as u64);
            s.append(" 回を超過");
            s
        },
    }
}

pub open spec fn probe_no_location_header_text(lang: Lang) -> Seq<char> {
    match lang {
        Lang::En => "redirect response has no Location header"@,
        Lang::Ja => "リダイレクト応答に Location ヘッダがない"@,
    }
}

pub fn probe_no_location_header(lang: Lang) -> (s: String)
    ensures
        s@ == probe_no_location_header_text(lang),
{
    match lang {
        Lang::En => "redirect response has no Location header".to_owned(),
        Lang::Ja => "リダイレクト応答に Location ヘッダがない".to_owned(),
    }
}

pub open spec fn probe_body_read_failed_text(lang: Lang, error: Seq<char>) -> Seq<char> {
    match lang {
        Lang::En => "failed to read body: "@ + error,
        Lang::Ja => "ボディ受信失敗: "@ + error,
    }
}

pub fn probe_body_read_failed(lang: Lang, error: &str) -> (s: String)
    ensures
        s@ == probe_body_read_failed_text(lang, error@),
{
    match lang {
        Lang::En => {
            let mut s = "failed to read body: ".to_owned();
            s.append(error);
            s
        },
        Lang::Ja => {
            let mut s = "ボディ受信失敗: ".to_owned();
            s.append(error);
            s
        },
    }
}

pub open spec fn probe_trace_timeout_text(lang: Lang) -> Seq<char> {
    match lang {
        Lang::En => "the path trace timed out"@,
        Lang::Ja => "経路トレースがタイムアウト"@,
    }
}

pub fn probe_trace_timeout(lang: Lang) -> (s: String)
    ensures
        s@ == probe_trace_timeout_text(lang),
{
    match lang {
        Lang::En => "the path trace timed out".to_owned(),
        Lang::Ja => "経路トレースがタイムアウト".to_owned(),
    }
}

// ── Watch mode ──────────────────────────────────────────────────────────

pub open spec fn watch_start_text(lang: Lang, interval_secs: u64) -> Seq<char> {
    match lang {
        Lang::En => "watching every "@ + text::dec(interval_secs as nat) + "s — press Ctrl-C to stop and show a summary"@,
        Lang::Ja => text::dec(interval_secs as nat) + " 秒間隔で監視します — Ctrl-C で終了してサマリを表示します"@,
    }
}

pub fn watch_start_line(lang: Lang, interval_secs: u64) -> (s: String)
    ensures
        s@ == watch_start_text(lang, interval_secs),
{
    match lang {
        Lang::En => {
            let mut s = "watching every ".to_owned();
            text::push_dec(&mut s, interval_secs);
            s.append("s — press Ctrl-C to stop and show a summary");
            s
        },
        Lang::Ja => {
            let mut s = text::dec_text(interval_secs);
            s.append(" 秒間隔で監視します — Ctrl-C で終了してサマリを表示します");
            s
        },
    }
}

pub open spec fn watch_ok_details_text(dns: Seq<char>, tcp: Seq<char>, ttfb: Seq<char>, loss: Seq<char>) -> Seq<char> {
    "OK (dns "@ + dns + " / tcp "@ + tcp + " / ttfb "@ + ttfb + " / loss "@ + loss + ")"@
}

pub fn watch_ok_details(_lang: Lang, dns: &str, tcp: &str, ttfb: &str, loss: &str) -> (s: String)
    ensures
        s@ == watch_ok_details_text(dns@, tcp@, ttfb@, loss@),
{
    let mut s = "OK (dns ".to_owned();
    s.append(dns);
    s.append(" / tcp ");
    s.append(tcp);
    s.append(" / ttfb ");
    s.append(ttfb);
    s.append(" / loss ");
    s.append(loss);
    s.append(")");
    s
}

pub open spec fn watch_runs_text(lang: Lang, runs: u32, ok: u32, ok_pct: Percent) -> Seq<char> {
    match lang {
        Lang::En => "runs: "@ + text::dec(runs as nat) + " / ok: "@ + text::dec(ok as nat) + " ("@ + text::dec(ok_pct.shown()) + "%)"@,
        Lang::Ja => "実行回数: "@ + text::dec(runs as nat) + " / 正常: "@ + text::dec(ok as nat) + " ("@ + text::dec(ok_pct.shown()) + "%)"@,
    }
}

pub fn watch_runs_line(lang: Lang, runs: u32, ok: u32, ok_pct: Percent) -> (s: String)
    ensures
        s@ == watch_runs_text(lang, runs, ok, ok_pct),
{
    match lang {
        Lang::En => {
            let mut s = "runs: ".to_owned();
            text::push_dec(&mut s, runs as u64);
            s.append(" / ok: ");
            text::push_dec(&mut s, ok as u64);
            s.append(" (");
            text::push_dec(&mut s, ok_pct.to_shown());
            s.append("%)");
            s
        },
        Lang::Ja => {
            let mut s = "実行回数: ".to_owned();
            text::push_dec(&mut s, runs as u64);
            s.append(" / 正常: ");
            text::push_dec(&mut s, ok as u64);
            s.append(" (");
            text::push_dec(&mut s, ok_pct.to_shown());
            s.append("%)");
            s
        },
    }
}

pub open spec fn watch_problem_text(lang: Lang, headline: Seq<char>, count: u32, first: Seq<char>, last: Seq<char>) -> Seq<char> {
    match lang {
        Lang::En => headline + " — "@ + text::dec(count as nat) + " times (first "@ + first + " / last "@ + last + ")"@,
        Lang::Ja => headline + " — "@ + text::dec(count as nat) + " 回 (初回 "@ + first + " / 最終 "@ + last + ")"@,
    }
}

pub fn watch_problem_line(lang: Lang, headline: &str, count: u32, first: &str, last: &str) -> (s: String)
    ensures
        s@ == watch_problem_text(lang, headline@, count, first@, last@),
{
    match lang {
        Lang::En => {
            let mut s = headline.to_owned();
            s.append(" — ");
            text::push_dec(&mut s, count as u64);
            s.append(" times (first ");
            s.append(first);
            s.append(" / last ");
            s.append(last);
            s.append(")");
            s
        },
        Lang::Ja => {
            let mut s = headline.to_owned();
            s.append(" — ");
            text::push_dec(&mut s, count as u64);
            s.append(" 回 (初回 ");
            s.append(first);
            s.append(" / 最終 ");
            s.append(last);
            s.append(")");
            s
        },
    }
}

} // verus!
