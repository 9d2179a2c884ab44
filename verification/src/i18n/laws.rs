//! What the message catalog promises: which language is chosen, and that each value
//! stands in its place.

use crate::i18n;
use crate::i18n::ruling;
use crate::i18n::{Lang, MsgKey};
use crate::measure::{Millis, Percent};
use crate::probe::trace::HopZone;
use crate::report::DnsOutcome;
use crate::text;
use crate::text::laws;
use crate::verdict;
use crate::verdict::{EvidenceView, FindingView, Headline, RenderedVerdict, VerdictView};
use crate::ParseError;
use vstd::prelude::*;

verus! {

/// One text in English, the other in Japanese.
pub open spec fn say(lang: Lang, en: Seq<char>, ja: Seq<char>) -> Seq<char> {
    match lang {
        Lang::En => en,
        Lang::Ja => ja,
    }
}

// ── The language ────────────────────────────────────────────────────────

/// The variable is not set, or empty.
pub open spec fn is_unset(v: Option<&str>) -> bool {
    v is None || v->0@.len() == 0
}

/// The first variable that is set and not empty decides: Japanese where it holds `ja`, in
/// upper or lower case, else English. Without any, the language is English.
pub proof fn law_language(vars: Seq<Option<&str>>, k: int)
    requires
        0 <= k <= vars.len(),
        forall|i: int| 0 <= i < k ==> is_unset(#[trigger] vars[i]),
        k < vars.len() ==> !is_unset(vars[k]),
    ensures
        i18n::detected(vars) is Ja <==> k < vars.len() && laws::holds_in_any_case(
            vars[k]->0@,
            "ja"@,
        ),
    decreases vars.len(),
{
    if k > 0 {
        let rest = vars.drop_first();
        assert(is_unset(vars[0]));
        assert forall|i: int| 0 <= i < k - 1 implies is_unset(#[trigger] rest[i]) by {
            assert(rest[i] == vars[i + 1]);
        }
        if k < vars.len() {
            assert(rest[k - 1] == vars[k]);
        }
        law_language(rest, k - 1);
    } else if vars.len() > 0 {
        reveal_strlit("ja");
        laws::law_search_in_any_case(vars[0]->0@, "ja"@);
    }
}

// ── The grounds ─────────────────────────────────────────────────────────

/// The sources that failed are told with their label and how they ended.
pub proof fn law_failed_source(lang: Lang, label: Seq<char>, e: String)
    ensures
        ruling::evidence_text(
            lang,
            EvidenceView::LocalDnsSourceFailed { label, outcome: DnsOutcome::Timeout },
        ) == say(lang, label + " failed ("@ + "timeout"@ + ")"@, label + " ("@ + "タイムアウト"@ + ") は失敗"@),
        ruling::evidence_text(
            lang,
            EvidenceView::LocalDnsSourceFailed { label, outcome: DnsOutcome::NxDomain },
        ) == say(lang, label + " failed ("@ + "NXDOMAIN"@ + ")"@, label + " ("@ + "NXDOMAIN"@ + ") は失敗"@),
        ruling::evidence_text(
            lang,
            EvidenceView::LocalDnsSourceFailed { label, outcome: DnsOutcome::ServFail },
        ) == say(lang, label + " failed ("@ + "SERVFAIL"@ + ")"@, label + " ("@ + "SERVFAIL"@ + ") は失敗"@),
        ruling::evidence_text(
            lang,
            EvidenceView::LocalDnsSourceFailed { label, outcome: DnsOutcome::Error(e) },
        ) == say(
            lang,
            label + " failed ("@ + ("error: "@ + e@) + ")"@,
            label + " ("@ + ("エラー: "@ + e@) + ") は失敗"@,
        ),
{
}

/// The answers of the two sides are told each as its own.
pub proof fn law_answers_are_told(lang: Lang, ips: Seq<Seq<char>>)
    ensures
        ruling::evidence_text(lang, EvidenceView::LocalDnsAnswers { ips }) == say(
            lang,
            "local answers: "@,
            "ローカル側の回答: "@,
        ) + text::join(ips, ", "@),
        ruling::evidence_text(lang, EvidenceView::PublicDnsAnswers { ips }) == say(
            lang,
            "public answers: "@,
            "パブリック側の回答: "@,
        ) + text::join(ips, ", "@),
        ruling::finding_text(lang, FindingView::ProxyEnvPresent { names: ips }) == say(
            lang,
            "proxy environment variables are set: "@,
            "プロキシ環境変数が設定されています: "@,
        ) + text::join(ips, ", "@),
        ruling::evidence_text(lang, EvidenceView::ProxyVarsDetected { vars: ips }) == say(
            lang,
            "proxy environment variables detected: "@,
            "プロキシ環境変数を検出: "@,
        ) + text::join(ips, ", "@),
{
}

/// Where the answers of the two sides differ, the note tells the local ones first.
pub proof fn law_differing_answers_are_told(
    lang: Lang,
    local: Seq<Seq<char>>,
    public: Seq<Seq<char>>,
)
    ensures
        ruling::finding_text(lang, FindingView::DnsAnswersDiffer { local, public }) == say(
            lang,
            "local and public DNS answers differ (local: "@,
            "ローカル DNS とパブリック DNS で回答が異なります (ローカル: "@,
        ) + text::join(local, ", "@) + say(lang, " / public: "@, " / パブリック: "@) + text::join(
            public,
            ", "@,
        ) + say(
            lang,
            ") — this can be normal with CDNs"@,
            ") — CDN なら正常なこともあります"@,
        ),
{
}

/// Every duration in the grounds is told in whole milliseconds.
pub proof fn law_durations_are_told(lang: Lang, ms: Millis)
    ensures
        ({
            let n = text::dec(ms.shown());
            &&& ruling::evidence_text(lang, EvidenceView::ConnectFast { ms }) == say(
                lang,
                "TCP connects in "@ + n + "ms — the path is healthy"@,
                "TCP 接続は "@ + n + "ms と高速 = 経路は健全"@,
            )
            &&& ruling::evidence_text(lang, EvidenceView::TtfbSlow { ms }) == say(
                lang,
                "yet the first byte of the response (TTFB) takes "@ + n + "ms"@,
                "しかし最初の応答 (TTFB) まで "@ + n + "ms かかっている"@,
            )
            &&& ruling::evidence_text(lang, EvidenceView::LocalDnsLatency { ms }) == say(
                lang,
                "local DNS takes "@ + n + "ms to answer"@,
                "ローカル DNS の応答に "@ + n + "ms"@,
            )
            &&& ruling::evidence_text(lang, EvidenceView::PublicDnsLatency { ms }) == say(
                lang,
                "public DNS (1.1.1.1 / 8.8.8.8) answers in "@ + n + "ms"@,
                "パブリック DNS (1.1.1.1 / 8.8.8.8) は "@ + n + "ms と高速"@,
            )
            &&& ruling::evidence_text(lang, EvidenceView::TcpHealthy { ms }) == say(
                lang,
                "TCP connect: OK ("@ + n + "ms)"@,
                "TCP 接続: 正常 ("@ + n + "ms)"@,
            )
        }),
{
}

/// The loss is told with how many probes failed out of how many were sent, and the share;
/// the round trip with its mean and its jitter.
pub proof fn law_path_figures_are_told(
    lang: Lang,
    sent: u32,
    lost: u32,
    pct: Percent,
    avg: Millis,
    jitter: Millis,
)
    ensures
        ({
            let s = text::dec(sent as nat);
            let l = text::dec(lost as nat);
            let p = text::dec(pct.shown());
            &&& ruling::evidence_text(lang, EvidenceView::ProbeLoss { sent, lost, pct }) == say(
                lang,
                l + " of "@ + s + " connection probes failed ("@ + p + "% loss)"@,
                "接続プローブ "@ + s + " 回中 "@ + l + " 回失敗 (ロス率 "@ + p + "%)"@,
            )
            &&& ruling::evidence_text(lang, EvidenceView::RttStats { avg, jitter }) == say(
                lang,
                "RTT average "@,
                "RTT 平均 "@,
            ) + text::dec(avg.shown()) + say(lang, "ms / jitter "@, "ms / ジッタ "@) + text::dec(
                jitter.shown(),
            ) + "ms"@
            &&& ruling::evidence_text(lang, EvidenceView::PathHealthy { loss_pct: pct, jitter })
                == say(lang, "path quality: loss "@, "経路品質: ロス "@) + p + say(
                lang,
                "% / jitter "@,
                "% / ジッタ "@,
            ) + text::dec(jitter.shown()) + "ms"@
        }),
{
}

/// The certificate and the response are told with their figures.
pub proof fn law_health_is_told(
    lang: Lang,
    version: Seq<char>,
    days: i64,
    status: u16,
    ttfb: Millis,
)
    ensures
        ({
            let d = text::signed_dec(days as int);
            &&& ruling::evidence_text(lang, EvidenceView::TlsHealthy { version, days }) == say(
                lang,
                "TLS: OK ("@ + version + ", certificate valid for "@ + d + " more days)"@,
                "TLS: 正常 ("@ + version + ", 証明書残り "@ + d + " 日)"@,
            )
            &&& ruling::evidence_text(lang, EvidenceView::HttpHealthy { status, ttfb }) == "HTTP: "@
                + text::dec(status as nat) + " (TTFB "@ + text::dec(ttfb.shown()) + "ms)"@
            &&& ruling::evidence_text(lang, EvidenceView::CertExpiredDaysAgo { days }) == say(
                lang,
                "The certificate expired "@ + d + " days ago"@,
                "証明書は "@ + d + " 日前に失効"@,
            )
            &&& ruling::finding_text(lang, FindingView::CertExpiresSoon { days }) == say(
                lang,
                "the TLS certificate expires in only "@ + d + " days"@,
                "TLS 証明書の残り有効期間が "@ + d + " 日と短い"@,
            )
        }),
{
}

/// The last hop is told with its address, its number and the length of the path, and the
/// MTU as it is.
pub proof fn law_trace_is_told(lang: Lang, ip: Seq<char>, index: u8, path_len: u8, mtu: u16)
    ensures
        ruling::evidence_text(lang, EvidenceView::LastRespondingHop { ip, index, path_len }) == say(
            lang,
            "last responding hop: "@ + ip + " (hop "@ + text::dec(index as nat) + " of ~"@
                + text::dec(path_len as nat) + ")"@,
            "最後に応答したホップ: "@ + ip + " (ホップ "@ + text::dec(index as nat)
                + " / 推定経路長 ~"@ + text::dec(path_len as nat) + ")"@,
        ),
        laws::holds(
            ruling::evidence_text(lang, EvidenceView::PmtuBlackholeObserved { mtu }),
            text::dec(mtu as nat),
        ),
{
    let t = ruling::evidence_text(lang, EvidenceView::PmtuBlackholeObserved { mtu });
    assert(laws::is_made_of(
        t,
        "the path MTU is "@,
        text::dec(mtu as nat),
        " bytes, and larger packets vanish without any ICMP reply"@,
    ) || laws::is_made_of(
        t,
        "経路 MTU が "@,
        text::dec(mtu as nat),
        " バイトで、超過パケットは ICMP 通知なしで消えている"@,
    ));
}

/// Errors and issuers are told as they are.
pub proof fn law_errors_are_told(lang: Lang, e: Seq<char>)
    ensures
        ruling::evidence_text(lang, EvidenceView::PresentedIssuer { issuer: e }) == say(
            lang,
            "presented certificate issuer: "@,
            "提示された証明書の発行者: "@,
        ) + e,
        ruling::evidence_text(lang, EvidenceView::ChainVerifyFailed { error: e }) == say(
            lang,
            "certificate chain verification failed: "@,
            "証明書チェーンの検証に失敗: "@,
        ) + e,
        ruling::evidence_text(lang, EvidenceView::HttpErrorDetail { error: e }) == say(
            lang,
            "HTTP error: "@,
            "HTTP エラー: "@,
        ) + e,
        ruling::finding_text(lang, FindingView::QuicLocalError { error: e }) == say(
            lang,
            "the QUIC probe could not run: "@,
            "QUIC プローブを実行できません: "@,
        ) + e,
        ruling::finding_text(lang, FindingView::QuicHandshakeFailed { error: e }) == say(
            lang,
            "the QUIC handshake failed: "@,
            "QUIC ハンドシェイク失敗: "@,
        ) + e + say(
            lang,
            " — not a network problem"@,
            " — ネットワークの問題ではありません"@,
        ),
{
}

/// The note on the hosts file names the host first and the address second.
pub proof fn law_override_is_told(lang: Lang, host: Seq<char>, ip: Seq<char>)
    ensures
        ruling::finding_text(lang, FindingView::HostsOverride { host, ip }) == say(
            lang,
            "/etc/hosts has an override for \""@ + host + "\" ("@ + ip
                + ") — connections ignore DNS"@,
            "/etc/hosts に「"@ + host + "」の上書きエントリあり ("@ + ip
                + ") — DNS を無視して接続しています"@,
        ),
{
}

/// A note on a QUIC timeout tells whether HTTP/3 is advertised.
pub proof fn law_quic_timeout_is_told(lang: Lang)
    ensures
        ruling::finding_text(lang, FindingView::QuicTimedOut { h3_advertised: true }) == say(
            lang,
            "the QUIC handshake timed out although HTTP/3 is advertised — UDP 443 may be blocked"@,
            "HTTP/3 が広告されているのに QUIC ハンドシェイクがタイムアウト — UDP 443 がブロックされている可能性"@,
        ),
        ruling::finding_text(lang, FindingView::QuicTimedOut { h3_advertised: false }) == say(
            lang,
            "the QUIC handshake timed out, which is expected where HTTP/3 is not advertised"@,
            "QUIC ハンドシェイクがタイムアウト (HTTP/3 の広告がないため想定内)"@,
        ),
{
}

// ── The statement ───────────────────────────────────────────────────────

/// The statement names the host or the port that it is about.
pub proof fn law_statements_name_their_subject(lang: Lang, host: String, port: u16)
    ensures
        laws::holds(ruling::headline_text(lang, Headline::NameDoesNotExist { host }), host@),
        laws::holds(
            ruling::headline_text(lang, Headline::ServerDown { port }),
            text::dec(port as nat),
        ),
        laws::holds(
            ruling::headline_text(lang, Headline::TcpBlocked { port }),
            text::dec(port as nat),
        ),
{
    let p = text::dec(port as nat);
    let a = ruling::headline_text(lang, Headline::NameDoesNotExist { host });
    assert(laws::is_made_of(
        a,
        "The domain \""@,
        host@,
        "\" does not exist. This is not a network problem"@,
    ) || laws::is_made_of(
        a,
        "ドメイン「"@,
        host@,
        "」は存在しません。ネットワークのせいではありません"@,
    ));
    let b = ruling::headline_text(lang, Headline::ServerDown { port });
    assert(b + Seq::<char>::empty() =~= b);
    assert(laws::is_made_of(
        b,
        "The server is up, but nothing is listening on port "@,
        p,
        Seq::empty(),
    ) || laws::is_made_of(
        b,
        "サーバは生きていますが、ポート "@,
        p,
        " で何も待ち受けていません"@,
    ));
    let c = ruling::headline_text(lang, Headline::TcpBlocked { port });
    assert(laws::is_made_of(
        c,
        "TCP connections to port "@,
        p,
        " time out (filtered or unreachable)"@,
    ) || laws::is_made_of(
        c,
        "ポート "@,
        p,
        " への TCP 接続がタイムアウトします (フィルタ/到達不能)"@,
    ));
}

/// The next step begins with that of the culprit; where the failure was located on the
/// path, what to do there follows.
pub proof fn law_next_step(lang: Lang, h: Headline, zone: HopZone)
    ensures
        verdict::advice(lang, h, None) == ruling::next_step_text(lang, h),
        verdict::advice(lang, h, Some(zone)) == verdict::advice(lang, h, None) + " — "@
            + ruling::zone_guidance_text(lang, zone),
        ruling::zone_guidance_text(lang, zone) == match zone {
            HopZone::Home => say(
                lang,
                "The trace dies inside your home network: check the router/gateway first"@,
                "トレースは宅内 (ルータ/ゲートウェイ) で止まっています。まずそこを確認してください"@,
            ),
            HopZone::Isp => say(
                lang,
                "The trace dies in your ISP's network: contact your provider if it persists"@,
                "トレースは ISP 網内で止まっています。続くようなら回線事業者に問い合わせてください"@,
            ),
            HopZone::FarSide => say(
                lang,
                "The trace dies deep in the path: the far side (hosting or server network) is the likely place"@,
                "トレースは経路の奥、対岸 (ホスティング/サーバ側) で止まっています"@,
            ),
        },
{
}

/// A verdict in words has a text for each of its grounds and each of its secondary
/// findings, in order; the culprit stays the same.
pub proof fn law_rendering(w: RenderedVerdict, v: VerdictView, lang: Lang, i: int, j: int)
    requires
        w.renders(v, lang),
    ensures
        w.culprit == v.culprit,
        w.culprit_code@ == v.culprit.name(),
        w.headline@ == ruling::headline_text(lang, v.headline),
        w.next_step@ == verdict::advice(lang, v.headline, v.zone_hint),
        w.evidence@.len() == v.evidence.len(),
        0 <= i < v.evidence.len() ==> w.evidence@[i]@ == ruling::evidence_text(
            lang,
            v.evidence[i],
        ),
        w.secondary@.len() == v.secondary.len(),
        0 <= j < v.secondary.len() ==> w.secondary@[j]@ == ruling::finding_text(
            lang,
            v.secondary[j],
        ),
{
    let e = text::texts(w.evidence@);
    let f = text::texts(w.secondary@);
    assert(e.len() == w.evidence@.len());
    assert(f.len() == w.secondary@.len());
    if 0 <= i < v.evidence.len() {
        assert(e[i] == w.evidence@[i]@);
    }
    if 0 <= j < v.secondary.len() {
        assert(f[j] == w.secondary@[j]@);
    }
}

// ── Fixed texts ─────────────────────────────────────────────────────────

/// The parts of a verdict stand under their labels.
pub proof fn law_labels(lang: Lang)
    ensures
        i18n::msg_text(lang, MsgKey::VerdictLabel) == say(lang, "[VERDICT]"@, "【判定】"@),
        i18n::msg_text(lang, MsgKey::EvidenceLabel) == say(lang, "[EVIDENCE]"@, "【根拠】"@),
        i18n::msg_text(lang, MsgKey::NotesLabel) == say(lang, "[NOTES]"@, "【所見】"@),
        i18n::msg_text(lang, MsgKey::NextStepLabel) == say(lang, "[NEXT STEP]"@, "【次の一手】"@),
        i18n::msg_text(lang, MsgKey::Bullet) == say(lang, "• "@, "・"@),
{
}

/// The complaint about a target tells what was wrong with it.
pub proof fn law_complaints(lang: Lang, t: String)
    ensures
        i18n::parse_error_text(lang, ParseError::UnsupportedScheme(t)) == say(
            lang,
            "unsupported scheme: "@,
            "未対応のスキームです: "@,
        ) + t@,
        i18n::parse_error_text(lang, ParseError::InvalidPort(t)) == say(
            lang,
            "invalid port number: "@,
            "ポート番号が不正です: "@,
        ) + t@,
        i18n::parse_error_text(lang, ParseError::EmptyHost) == say(
            lang,
            "empty host name"@,
            "ホスト名が空です"@,
        ),
        i18n::parse_error_text(lang, ParseError::UnclosedIpv6) == say(
            lang,
            "missing ']' in IPv6 literal"@,
            "IPv6 リテラルの ']' がありません"@,
        ),
{
}

} // verus!
