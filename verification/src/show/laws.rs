//! What the screen promises: which results are marked as good, as worth a look or as
//! bad, and what each line tells.

use crate::addr;
use crate::i18n;
use crate::i18n::laws;
use crate::i18n::Lang;
use crate::measure;
use crate::report::{
    Completeness, DnsOutcome, DnsReport, EnvReport, HttpReport, PathReport, QuicOutcome,
    QuicReport, TcpOutcome, TcpReport, TlsReport, TraceData, TraceReport, TruncationReason,
};
use crate::show;
use crate::show::LineView;
use crate::text;
use crate::verdict::{Culprit, RenderedVerdict};
use vstd::prelude::*;

verus! {

/// A text, or a question mark.
pub open spec fn told(t: Option<String>) -> Seq<char> {
    if t is Some {
        t->0@
    } else {
        "?"@
    }
}

// ── Environment ─────────────────────────────────────────────────────────

/// The environment tells the name servers first, then the search domains where there
/// are any, then the entry of the hosts file, and the proxies last. Only what departs
/// from the usual is marked.
pub proof fn law_environment(lang: Lang, host: Seq<char>, env: EnvReport, i: int)
    ensures
        ({
            let all = show::env_shown(lang, host, env);
            let list = text::join(addr::ip_texts(env.nameservers@), ", "@);
            &&& env.nameservers@.len() == 0 ==> all[0] is Warn
            &&& env.nameservers@.len() > 0 ==> all[0] == LineView::Good(
                laws::say(lang, "nameservers: "@ + list, "ネームサーバ: "@ + list),
            )
        }),
        ({
            let all = show::env_shown(lang, host, env);
            let some = env.search_domains@.len() > 0;
            let k: int = if some {
                2
            } else {
                1
            };
            let list = text::join(text::texts(env.search_domains@), ", "@);
            &&& some ==> all[1] == LineView::Good(
                laws::say(lang, "search domains: "@ + list, "search ドメイン: "@ + list),
            )
            &&& env.hosts_override is None ==> all[k] is Good
            &&& env.hosts_override is Some ==> all[k] == LineView::Warn(
                laws::say(
                    lang,
                    "/etc/hosts overrides "@ + host + " with "@ + env.hosts_override->0@,
                    "/etc/hosts が "@ + host + " を "@ + env.hosts_override->0@
                        + " に上書きしています"@,
                ),
            )
            &&& env.proxies@.len() == 0 ==> all.len() == k + 2 && all[k + 1] is Good
            &&& env.proxies@.len() > 0 ==> all.len() == k + 1 + env.proxies@.len()
            &&& 0 <= i < env.proxies@.len() ==> all[k + 1 + i] == LineView::Warn(
                laws::say(
                    lang,
                    "proxy detected: "@ + env.proxies@[i].0@ + "="@ + env.proxies@[i].1@,
                    "プロキシ検出: "@ + env.proxies@[i].0@ + "="@ + env.proxies@[i].1@,
                ),
            )
        }),
{
}

// ── DNS ─────────────────────────────────────────────────────────────────

/// Every source has its line, in order. An answer is good and tells how many addresses
/// it gave, how long it took and which they are; everything else is bad.
pub proof fn law_dns(lang: Lang, dns: DnsReport, i: int)
    requires
        !dns.skipped,
        0 <= i < dns.sources@.len(),
    ensures
        show::dns_shown(lang, dns).len() == dns.sources@.len(),
        ({
            let s = dns.sources@[i];
            let ms = measure::ms_text(s.latency_ms);
            let n = text::dec((s.ips@.len() as usize) as nat);
            let ips = text::join(addr::ip_texts(s.ips@), ", "@);
            show::dns_shown(lang, dns)[i] == match s.outcome {
                DnsOutcome::Resolved => LineView::Good(
                    laws::say(
                        lang,
                        s.label@ + ": "@ + n + " answers ("@ + ms + ") ["@ + ips + "]"@,
                        s.label@ + ": "@ + n + " 件の回答 ("@ + ms + ") ["@ + ips + "]"@,
                    ),
                ),
                DnsOutcome::NxDomain => LineView::Bad(
                    laws::say(
                        lang,
                        s.label@ + ": NXDOMAIN (name does not exist)"@,
                        s.label@ + ": NXDOMAIN (名前が存在しない)"@,
                    ),
                ),
                DnsOutcome::ServFail => LineView::Bad(s.label@ + ": SERVFAIL"@),
                DnsOutcome::Timeout => LineView::Bad(
                    laws::say(lang, s.label@ + ": timed out"@, s.label@ + ": タイムアウト"@),
                ),
                DnsOutcome::Error(e) => LineView::Bad(s.label@ + ": "@ + e@),
            }
        }),
{
}

/// Where no name had to be resolved, one good line says so.
pub proof fn law_dns_not_needed(lang: Lang, dns: DnsReport)
    requires
        dns.skipped,
    ensures
        show::dns_shown(lang, dns).len() == 1,
        show::dns_shown(lang, dns)[0] == LineView::Good(
            laws::say(
                lang,
                "target is an IP literal, skipping name resolution"@,
                "ターゲットは IP リテラルのため名前解決をスキップ"@,
            ),
        ),
{
}

// ── TCP ─────────────────────────────────────────────────────────────────

/// Every probe has its line, in order, which begins with the family, the address and
/// the port. A connection is good and tells how many attempts succeeded and the minimum,
/// the mean and the maximum; everything else is bad.
pub proof fn law_tcp(lang: Lang, tcp: TcpReport, i: int)
    requires
        0 <= i < tcp.probes@.len(),
    ensures
        show::tcp_shown(lang, tcp).len() == tcp.probes@.len(),
        ({
            let p = tcp.probes@[i];
            let front = (if p.ip is V4 {
                "IPv4"@
            } else {
                "IPv6"@
            }) + " "@ + p.ip.shown() + ":"@ + text::dec(p.port as nat);
            show::tcp_shown(lang, tcp)[i] == match p.outcome {
                TcpOutcome::Connected => LineView::Good(
                    front + laws::say(lang, " connected "@, " 接続成功 "@) + text::dec(
                        p.successes as nat,
                    ) + "/"@ + text::dec(p.samples as nat) + " (min/avg/max "@ + measure::ms_text(
                        p.min_ms,
                    ) + "/"@ + measure::ms_text(p.avg_ms) + "/"@ + measure::ms_text(p.max_ms)
                        + ")"@,
                ),
                TcpOutcome::Refused => LineView::Bad(
                    front + laws::say(
                        lang,
                        " connection refused (port closed, host is alive)"@,
                        " 接続拒否 (ポートは閉じているがホストは生存)"@,
                    ),
                ),
                TcpOutcome::Timeout => LineView::Bad(
                    front + laws::say(
                        lang,
                        " timed out (filtered or unreachable)"@,
                        " タイムアウト (フィルタ/到達不能)"@,
                    ),
                ),
                TcpOutcome::Error(e) => LineView::Bad(
                    front + laws::say(lang, " failed: "@, " 失敗: "@) + e@,
                ),
            }
        }),
{
}

// ── TLS ─────────────────────────────────────────────────────────────────

/// A verified chain is good and tells the version and the time. Its certificate is good
/// with more than fourteen days left, worth a look with fewer, and bad once it has
/// expired; where the days are unknown nothing is told of them.
pub proof fn law_tls_verified(lang: Lang, tls: TlsReport)
    requires
        tls.verified,
    ensures
        ({
            let all = show::tls_shown(lang, tls);
            let v = told(tls.version);
            let ms = measure::ms_text(tls.handshake_ms);
            &&& all[0] == LineView::Good(
                laws::say(
                    lang,
                    "handshake OK: "@ + v + " ("@ + ms + ")"@,
                    "ハンドシェイク成功: "@ + v + " ("@ + ms + ")"@,
                ),
            )
            &&& all.last() == LineView::Good(
                laws::say(
                    lang,
                    "certificate chain verified: OK, hostname matches"@,
                    "証明書チェーン検証: OK / ホスト名一致"@,
                ),
            )
            &&& tls.days_until_expiry is None ==> all.len() == 2
            &&& tls.days_until_expiry is Some ==> all.len() == 3
        }),
        ({
            let all = show::tls_shown(lang, tls);
            let d = tls.days_until_expiry->0;
            let left = laws::say(
                lang,
                "certificate valid for "@ + text::signed_dec(d as int) + " more days"@,
                "証明書の残り有効期間: "@ + text::signed_dec(d as int) + " 日"@,
            );
            tls.days_until_expiry is Some ==> {
                &&& d > 14 ==> all[1] == LineView::Good(left)
                &&& 0 <= d <= 14 ==> all[1] == LineView::Warn(left)
                &&& i64::MIN < d < 0 ==> all[1] == LineView::Bad(
                    laws::say(
                        lang,
                        "certificate expired "@ + text::dec((-d) as nat) + " days ago"@,
                        "証明書は "@ + text::dec((-d) as nat) + " 日前に失効"@,
                    ),
                )
                &&& d < 0 ==> all[1] is Bad
            }
        }),
{
}

/// A chain that could not be verified is bad and tells the error; who issued the
/// certificate is worth a look, and whether that may be a middlebox.
pub proof fn law_tls_failed(lang: Lang, tls: TlsReport)
    requires
        !tls.verified,
        tls.error is Some,
    ensures
        ({
            let all = show::tls_shown(lang, tls);
            let e = tls.error->0@;
            let by = tls.presented_issuer->0@;
            &&& all[0] == LineView::Bad(
                laws::say(lang, "certificate verification failed: "@ + e, "証明書検証失敗: "@ + e),
            )
            &&& tls.presented_issuer is None ==> all.len() == 1
            &&& tls.presented_issuer is Some ==> all.len() == 2
            &&& tls.presented_issuer is Some && !tls.interception_suspected ==> all[1]
                == LineView::Warn(
                laws::say(lang, "presented issuer: "@ + by, "提示された発行者: "@ + by),
            )
            &&& tls.presented_issuer is Some && tls.interception_suspected ==> all[1]
                == LineView::Warn(
                laws::say(
                    lang,
                    "presented issuer: "@ + by + " (possible middlebox)"@,
                    "提示された発行者: "@ + by + " (ミドルボックスの疑い)"@,
                ),
            )
        }),
{
}

// ── HTTP ────────────────────────────────────────────────────────────────

/// The redirects come first, in order; the last line is the result. A response without
/// an error is good with a status of the 200s or 300s, else worth a look, and tells the
/// five times in their order. With an error it is bad, and so is a request that brought
/// nothing.
pub proof fn law_http(lang: Lang, url: Seq<char>, http: HttpReport, i: int)
    ensures
        ({
            let all = show::http_shown(lang, url, http);
            let n = http.redirect_chain@.len() as int;
            &&& all.len() == n + 1
            &&& 0 <= i < n ==> all[i] == LineView::Good(
                laws::say(lang, "redirect: "@, "リダイレクト: "@) + http.redirect_chain@[i]@,
            )
        }),
        ({
            let last = show::http_shown(lang, url, http).last();
            let front = "GET "@ + url + " → "@ + text::dec(http.status->0 as nat);
            let times = " (DNS "@ + measure::ms_text(http.dns_ms) + laws::say(
                lang,
                " / connect "@,
                " / 接続 "@,
            ) + measure::ms_text(http.connect_ms) + " / TLS "@ + measure::ms_text(http.tls_ms)
                + " / TTFB "@ + measure::ms_text(http.ttfb_ms) + laws::say(lang, " / total "@, " / 合計 "@)
                + measure::ms_text(http.total_ms) + ")"@;
            let class = http.status->0 / 100;
            &&& http.status is Some && http.error is None && (class == 2 || class == 3) ==> last
                == LineView::Good(front + times)
            &&& http.status is Some && http.error is None && class != 2 && class != 3 ==> last
                == LineView::Warn(front + times)
            &&& http.status is Some && http.error is Some ==> last == LineView::Bad(
                front + laws::say(lang, " but errored: "@, " だがエラー: "@) + http.error->0@,
            )
            &&& http.status is None && http.error is Some ==> last == LineView::Bad(
                "GET "@ + url + laws::say(lang, " failed: "@, " 失敗: "@) + http.error->0@,
            )
            &&& http.status is None && http.error is None ==> last is Bad
        }),
{
    let last = show::http_shown(lang, url, http).last();
    assert(last == show::result_shown(lang, url, http));
    if http.status is Some && http.error is None {
        let front = "GET "@ + url + " → "@ + text::dec(http.status->0 as nat);
        let times = " (DNS "@ + measure::ms_text(http.dns_ms) + laws::say(
            lang,
            " / connect "@,
            " / 接続 "@,
        ) + measure::ms_text(http.connect_ms) + " / TLS "@ + measure::ms_text(http.tls_ms)
            + " / TTFB "@ + measure::ms_text(http.ttfb_ms) + laws::say(lang, " / total "@, " / 合計 "@)
            + measure::ms_text(http.total_ms) + ")"@;
        let line = i18n::http_result_text(
            lang,
            url,
            http.status->0,
            measure::ms_text(http.dns_ms),
            measure::ms_text(http.connect_ms),
            measure::ms_text(http.tls_ms),
            measure::ms_text(http.ttfb_ms),
            measure::ms_text(http.total_ms),
        );
        lemma_ten(
            front,
            " (DNS "@,
            measure::ms_text(http.dns_ms),
            laws::say(lang, " / connect "@, " / 接続 "@),
            measure::ms_text(http.connect_ms),
            " / TLS "@,
            measure::ms_text(http.tls_ms),
            " / TTFB "@,
            measure::ms_text(http.ttfb_ms),
            laws::say(lang, " / total "@, " / 合計 "@),
            measure::ms_text(http.total_ms),
            ")"@,
        );
        assert(line == front + times);
    }
}

proof fn lemma_ten(
    f: Seq<char>,
    a: Seq<char>,
    b: Seq<char>,
    c: Seq<char>,
    d: Seq<char>,
    e: Seq<char>,
    g: Seq<char>,
    h: Seq<char>,
    i: Seq<char>,
    j: Seq<char>,
    k: Seq<char>,
    l: Seq<char>,
)
    ensures
        f + (a + b + c + d + e + g + h + i + j + k + l) == f + a + b + c + d + e + g + h + i + j + k
            + l,
{
    assert(f + (a + b) =~= f + a + b);
    assert(f + (a + b + c) =~= f + (a + b) + c);
    assert(f + (a + b + c + d) =~= f + (a + b + c) + d);
    assert(f + (a + b + c + d + e) =~= f + (a + b + c + d) + e);
    assert(f + (a + b + c + d + e + g) =~= f + (a + b + c + d + e) + g);
    assert(f + (a + b + c + d + e + g + h) =~= f + (a + b + c + d + e + g) + h);
    assert(f + (a + b + c + d + e + g + h + i) =~= f + (a + b + c + d + e + g + h) + i);
    assert(f + (a + b + c + d + e + g + h + i + j) =~= f + (a + b + c + d + e + g + h + i) + j);
    assert(f + (a + b + c + d + e + g + h + i + j + k) =~= f + (a + b + c + d + e + g + h + i + j)
        + k);
    assert(f + (a + b + c + d + e + g + h + i + j + k + l) =~= f + (a + b + c + d + e + g + h + i
        + j + k) + l);
}

// ── QUIC ────────────────────────────────────────────────────────────────

/// A handshake is good, silence is bad, and an error is worth a look. Where HTTP ran, a
/// second line tells whether HTTP/3 is advertised, which is good, or not.
pub proof fn law_quic(lang: Lang, port: u16, quic: QuicReport, http: Option<HttpReport>)
    ensures
        ({
            let all = show::quic_shown(lang, port, quic, http);
            &&& all[0] == match quic.outcome {
                QuicOutcome::Established { handshake_ms, negotiated_alpn } => LineView::Good(
                    laws::say(lang, "QUIC handshake OK: "@, "QUIC ハンドシェイク成功: "@)
                        + measure::ms_text(Some(handshake_ms)) + " (ALPN "@ + told(negotiated_alpn)
                        + ")"@,
                ),
                QuicOutcome::Timeout => LineView::Bad(
                    laws::say(
                        lang,
                        "QUIC handshake timed out (no response on UDP port "@ + text::dec(
                            port as nat,
                        ) + ")"@,
                        "QUIC ハンドシェイクがタイムアウト (UDP ポート "@ + text::dec(port as nat)
                            + " から応答なし)"@,
                    ),
                ),
                QuicOutcome::HandshakeError(e) => LineView::Warn(
                    laws::say(lang, "QUIC handshake failed: "@, "QUIC ハンドシェイク失敗: "@) + e@,
                ),
                QuicOutcome::LocalError(e) => LineView::Warn(
                    laws::say(lang, "the QUIC probe could not run: "@, "QUIC プローブを実行できません: "@)
                        + e@,
                ),
            }
            &&& http is None ==> all.len() == 1
            &&& http is Some ==> all.len() == 2
            &&& http is Some && http->0.h3_advertised && http->0.alt_svc is Some ==> all[1]
                == LineView::Good(
                laws::say(lang, "HTTP/3 is advertised (alt-svc: "@, "HTTP/3 の広告あり (alt-svc: "@)
                    + http->0.alt_svc->0@ + ")"@,
            )
            &&& http is Some && !http->0.h3_advertised ==> all[1] == LineView::Warn(
                laws::say(lang, "HTTP/3 is not advertised"@, "HTTP/3 の広告なし"@),
            )
        }),
{
}

// ── Path quality ────────────────────────────────────────────────────────

/// A path is worth a look where a tenth or more is lost or the jitter is above fifty
/// milliseconds. Its line tells the probes, the loss, the minimum, the mean, the maximum
/// and the jitter, in that order.
pub proof fn law_path(lang: Lang, path: PathReport)
    requires
        path.loss_pct.part == path.lost,
        path.loss_pct.whole == path.sent,
        path.sent > 0,
    ensures
        ({
            let poor = path.lost * 10 >= path.sent || (path.jitter_ms is Some
                && path.jitter_ms->0.nanos > 50_000_000);
            let line = text::dec(path.sent as nat) + laws::say(
                lang,
                " probes: loss "@,
                " 回プローブ: ロス "@,
            ) + text::dec(path.loss_pct.shown()) + "% / RTT min/avg/max "@ + measure::ms_text(
                path.min_ms,
            ) + "/"@ + measure::ms_text(path.avg_ms) + "/"@ + measure::ms_text(path.max_ms) + laws::say(
                lang,
                " / jitter "@,
                " / ジッタ "@,
            ) + measure::ms_text(path.jitter_ms);
            &&& poor ==> show::path_shown(lang, path) == LineView::Warn(line)
            &&& !poor ==> show::path_shown(lang, path) == LineView::Good(line)
        }),
{
}

// ── Path trace ──────────────────────────────────────────────────────────

/// Every hop has its line, in order: its number, its address and its time, or its
/// number and that there was no reply. No hop at all is worth a look.
pub proof fn law_hops(lang: Lang, data: TraceData, i: int)
    ensures
        ({
            let all = show::trace_shown(lang, TraceReport::Ran(data));
            let h = data.hops@[i];
            &&& all.len() >= data.hops@.len()
            &&& data.hops@.len() == 0 ==> all[0] is Warn
            &&& 0 <= i < data.hops@.len() && h.addr is Some ==> all[i] == LineView::Plain(
                (if h.index < 10 {
                    " "@
                } else {
                    ""@
                }) + text::dec(h.index as nat) + "  "@ + h.addr->0.shown() + "  "@
                    + measure::ms_text(h.rtt_ms),
            )
            &&& 0 <= i < data.hops@.len() && h.addr is None ==> all[i] == LineView::Plain(
                (if h.index < 10 {
                    " "@
                } else {
                    ""@
                }) + text::dec(h.index as nat) + laws::say(lang, "  *  (no reply)"@, "  *  (応答なし)"@),
            )
        }),
{
    reveal_strlit("");
    if 0 <= i < data.hops@.len() {
        let d = text::dec(data.hops@[i].index as nat);
        assert(""@ + d =~= d);
    }
}

/// Behind the hops stands the number of the last one, where the destination replied,
/// and then the MTU of the path, where it is known: worth a look where large packets
/// vanish, else good.
pub proof fn law_end_of_the_trace(lang: Lang, data: TraceData, n: int)
    requires
        n == data.hops@.len(),
        n > 0,
    ensures
        ({
            let all = show::trace_shown(lang, TraceReport::Ran(data));
            let mtu = crate::probe::trace::path_mtu(data.kernel_mtu, data.mtu_probes@);
            let hole = crate::probe::trace::blackhole(data.kernel_mtu, data.mtu_probes@);
            let k: int = if data.dest_reached {
                n + 1
            } else {
                n
            };
            let last = text::dec(data.hops@[n - 1].index as nat);
            let line = laws::say(lang, "path MTU: "@, "経路 MTU: "@) + text::dec(mtu->0 as nat);
            &&& data.dest_reached ==> all[n] == LineView::Good(
                laws::say(
                    lang,
                    "destination reached ("@ + last + " hops)"@,
                    "宛先に到達 ("@ + last + " ホップ)"@,
                ),
            )
            &&& mtu is None ==> all.len() == k
            &&& mtu is Some ==> all.len() == k + 1
            &&& mtu is Some && hole ==> all[k] == LineView::Warn(line)
            &&& mtu is Some && !hole ==> all[k] == LineView::Good(line)
        }),
{
}

/// A trace that did not run is one line that is worth a look, with the reason where it
/// failed.
pub proof fn law_no_trace(lang: Lang, e: String)
    ensures
        show::trace_shown(lang, TraceReport::Unsupported).len() == 1,
        show::trace_shown(lang, TraceReport::Unsupported)[0] is Warn,
        show::trace_shown(lang, TraceReport::Failed(e)).len() == 1,
        show::trace_shown(lang, TraceReport::Failed(e))[0] == LineView::Warn(
            laws::say(lang, "path trace failed: "@, "経路トレース失敗: "@) + e@,
        ),
{
}

// ── The verdict ─────────────────────────────────────────────────────────

/// The block of a verdict begins with the statement and ends with the next step. Between
/// them stand all grounds and then all secondary findings, each once and in order.
pub proof fn law_verdict_block(lang: Lang, v: RenderedVerdict, i: int, j: int)
    requires
        0 <= i < v.evidence@.len(),
    ensures
        ({
            let all = show::block_shown(lang, v);
            let n = v.evidence@.len() as int;
            let m = v.secondary@.len() as int;
            &&& all[0] is Verdict
            &&& all[0]->Verdict_text == v.headline@
            &&& all[0]->healthy <==> v.culprit == Culprit::NoProblem
            &&& all[2 + i] is Item
            &&& all[2 + i]->Item_text == v.evidence@[i]@
            &&& m == 0 ==> all.len() == n + 3
            &&& m > 0 ==> all.len() == n + m + 4 && all[n + 2] is Heading
            &&& 0 <= j < m ==> all[n + 3 + j] is Note && all[n + 3 + j]->Note_text
                == v.secondary@[j]@
            &&& all.last() is NextStep
            &&& all.last()->NextStep_text == v.next_step@
        }),
{
    let all = show::block_shown(lang, v);
    let n = v.evidence@.len() as int;
    let items = show::items_shown(lang, v.evidence@);
    let notes = show::notes_shown(lang, v.secondary@);
    assert(all[2 + i] == items[i]);
    if v.secondary@.len() > 0 {
        assert(all[n + 2] == notes[0]);
        if 0 <= j < v.secondary@.len() {
            assert(all[n + 3 + j] == notes[j + 1]);
        }
    }
}

// ── A diagnosis that was cut short ──────────────────────────────────────

/// The notice tells the reason, where it is known, then the stages that ran, then those
/// that were skipped, where there are any.
pub proof fn law_notice(lang: Lang, c: Completeness)
    ensures
        ({
            let all = show::truncation_shown(lang, c);
            let k: int = if c.truncated_reason is Some {
                2
            } else {
                1
            };
            let ran = text::join(show::stage_names(c.ran_stages@), ", "@);
            let skipped = text::join(show::stage_names(c.skipped_stages@), ", "@);
            &&& c.truncated_reason == Some(TruncationReason::MaxTimeExceeded) ==> all[1] == laws::say(
                lang,
                "reason: --max-time was exceeded"@,
                "理由: --max-time を超過"@,
            )
            &&& c.truncated_reason == Some(TruncationReason::Interrupted) ==> all[1] == laws::say(
                lang,
                "reason: interrupted (Ctrl-C)"@,
                "理由: 割り込み (Ctrl-C)"@,
            )
            &&& all[k] == laws::say(lang, "stages run: "@, "実行したステージ: "@) + ran
            &&& c.skipped_stages@.len() == 0 ==> all.len() == k + 1
            &&& c.skipped_stages@.len() > 0 ==> all.len() == k + 2 && all[k + 1] == laws::say(
                lang,
                "stages skipped: "@,
                "スキップしたステージ: "@,
            ) + skipped
        }),
{
}

} // verus!
