//! The words of a verdict.

use crate::i18n::Lang;
use crate::probe::trace::HopZone;
use crate::report::DnsOutcome;
use crate::text;
use crate::verdict::{Evidence, EvidenceView, Finding, FindingView, Headline};
use vstd::prelude::*;

verus! {

pub open spec fn outcome_text(lang: Lang, o: DnsOutcome) -> Seq<char> {
    match o {
        DnsOutcome::Resolved => "OK"@,
        DnsOutcome::NxDomain => "NXDOMAIN"@,
        DnsOutcome::ServFail => "SERVFAIL"@,
        DnsOutcome::Timeout => match lang {
            Lang::En => "timeout"@,
            Lang::Ja => "タイムアウト"@,
        },
        DnsOutcome::Error(e) => match lang {
            Lang::En => "error: "@ + e@,
            Lang::Ja => "エラー: "@ + e@,
        },
    }
}

/// How a DNS query ended, in words.
pub fn dns_outcome_label(lang: Lang, o: &DnsOutcome) -> (s: String)
    ensures
        s@ == outcome_text(lang, *o),
{
    match o {
        DnsOutcome::Resolved => "OK".to_owned(),
        DnsOutcome::NxDomain => "NXDOMAIN".to_owned(),
        DnsOutcome::ServFail => "SERVFAIL".to_owned(),
        DnsOutcome::Timeout => match lang {
            Lang::En => "timeout".to_owned(),
            Lang::Ja => "タイムアウト".to_owned(),
        },
        DnsOutcome::Error(e) => {
            let mut s = match lang {
                Lang::En => "error: ".to_owned(),
                Lang::Ja => "エラー: ".to_owned(),
            };
            s.append(e.as_str());
            s
        },
    }
}

pub open spec fn headline_text(lang: Lang, h: Headline) -> Seq<char> {
    match h {
        Headline::NameDoesNotExist { host } => match lang {
            Lang::En => "The domain \""@ + host@ + "\" does not exist. This is not a network problem"@,
            Lang::Ja => "ドメイン「"@ + host@ + "」は存在しません。ネットワークのせいではありません"@,
        },
        Headline::LocalDnsBroken => match lang {
            Lang::En => "Local DNS is not responding while public DNS works"@,
            Lang::Ja => "ローカル DNS リゾルバが機能していません"@,
        },
        Headline::LocalDnsSlow => match lang {
            Lang::En => "Your local DNS resolver is slow, dragging down everything"@,
            Lang::Ja => "ローカル DNS リゾルバが遅く、全体の体感を悪化させています"@,
        },
        Headline::OutboundDead => match lang {
            Lang::En => "All outbound traffic is failing. Your network connection itself is down"@,
            Lang::Ja => "外向きの通信が全滅しています。ネットワーク接続自体に問題があります"@,
        },
        Headline::DnsAnswerMismatch => match lang {
            Lang::En => "Local and public DNS give different answers, and the connection fails"@,
            Lang::Ja => "ローカル DNS とパブリック DNS で回答が異なり、接続にも失敗しています"@,
        },
        Headline::ServerDown { port } => match lang {
            Lang::En => "The server is up, but nothing is listening on port "@ + text::dec(port as nat),
            Lang::Ja => "サーバは生きていますが、ポート "@ + text::dec(port as nat) + " で何も待ち受けていません"@,
        },
        Headline::TcpBlocked { port } => match lang {
            Lang::En => "TCP connections to port "@ + text::dec(port as nat) + " time out (filtered or unreachable)"@,
            Lang::Ja => "ポート "@ + text::dec(port as nat) + " への TCP 接続がタイムアウトします (フィルタ/到達不能)"@,
        },
        Headline::Ipv6Broken => match lang {
            Lang::En => "Your IPv6 path is broken (IPv4 is fine)"@,
            Lang::Ja => "IPv6 経路が壊れています (IPv4 は正常)"@,
        },
        Headline::TlsCertExpired => match lang {
            Lang::En => "The server's TLS certificate has expired. This is not a network problem"@,
            Lang::Ja => "サーバの TLS 証明書が期限切れです。ネットワークのせいではありません"@,
        },
        Headline::TlsIntercepted => match lang {
            Lang::En => "Your TLS traffic is most likely being intercepted in transit"@,
            Lang::Ja => "TLS 通信が途中で傍受されている可能性が高いです"@,
        },
        Headline::TlsCertInvalid => match lang {
            Lang::En => "The server's TLS certificate is invalid (chain verification failed)"@,
            Lang::Ja => "サーバの TLS 証明書が不正です (チェーン検証失敗)"@,
        },
        Headline::ProxyInterference => match lang {
            Lang::En => "A proxy setting is most likely interfering with your traffic"@,
            Lang::Ja => "プロキシ設定が通信を妨げている可能性が高いです"@,
        },
        Headline::ServerSlow => match lang {
            Lang::En => "The server is slow to respond. The network is fine"@,
            Lang::Ja => "サーバ側の応答が遅いです。ネットワークは正常です"@,
        },
        Headline::UnstablePath => match lang {
            Lang::En => "The network path is unstable (high packet loss / jitter)"@,
            Lang::Ja => "ネットワーク経路が不安定です (パケットロス/ジッタ大)"@,
        },
        Headline::PmtuBlackhole => match lang {
            Lang::En => "Large packets silently vanish on the path (a PMTUD black hole)"@,
            Lang::Ja => "経路上で大きなパケットだけが黙って消えています (PMTUD ブラックホール)"@,
        },
        Headline::Udp443Blocked => match lang {
            Lang::En => "UDP port 443 is most likely blocked, so HTTP/3 (QUIC) does not work"@,
            Lang::Ja => "UDP 443 がブロックされている可能性が高く、HTTP/3 (QUIC) が使えません"@,
        },
        Headline::NoProblem => match lang {
            Lang::En => "No problem found. The path to this destination is healthy right now"@,
            Lang::Ja => "問題は見つかりませんでした。少なくとも今、この宛先への経路は健全です"@,
        },
    }
}

/// The statement that names the culprit.
pub fn headline(lang: Lang, h: &Headline) -> (s: String)
    ensures
        s@ == headline_text(lang, *h),
{
    match h {
        Headline::NameDoesNotExist { host } => match lang {
            Lang::En => {
                let mut s = "The domain \"".to_owned();
                s.append(host.as_str());
                s.append("\" does not exist. This is not a network problem");
                s
            },
            Lang::Ja => {
                let mut s = "ドメイン「".to_owned();
                s.append(host.as_str());
                s.append("」は存在しません。ネットワークのせいではありません");
                s
            },
        },
        Headline::LocalDnsBroken => match lang {
            Lang::En => "Local DNS is not responding while public DNS works".to_owned(),
            Lang::Ja => "ローカル DNS リゾルバが機能していません".to_owned(),
        },
        Headline::LocalDnsSlow => match lang {
            Lang::En => "Your local DNS resolver is slow, dragging down everything".to_owned(),
            Lang::Ja => "ローカル DNS リゾルバが遅く、全体の体感を悪化させています".to_owned(),
        },
        Headline::OutboundDead => match lang {
            Lang::En => "All outbound traffic is failing. Your network connection itself is down".to_owned(),
            Lang::Ja => "外向きの通信が全滅しています。ネットワーク接続自体に問題があります".to_owned(),
        },
        Headline::DnsAnswerMismatch => match lang {
            Lang::En => "Local and public DNS give different answers, and the connection fails".to_owned(),
            Lang::Ja => "ローカル DNS とパブリック DNS で回答が異なり、接続にも失敗しています".to_owned(),
        },
        Headline::ServerDown { port } => match lang {
            Lang::En => {
                let mut s = "The server is up, but nothing is listening on port ".to_owned();
                text::push_dec(&mut s, *port as u64);
                s
            },
            Lang::Ja => {
                let mut s = "サーバは生きていますが、ポート ".to_owned();
                text::push_dec(&mut s, *port as u64);
                s.append(" で何も待ち受けていません");
                s
            },
        },
        Headline::TcpBlocked { port } => match lang {
            Lang::En => {
                let mut s = "TCP connections to port ".to_owned();
                text::push_dec(&mut s, *port as u64);
                s.append(" time out (filtered or unreachable)");
                s
            },
            Lang::Ja => {
                let mut s = "ポート ".to_owned();
                text::push_dec(&mut s, *port as u64);
                s.append(" への TCP 接続がタイムアウトします (フィルタ/到達不能)");
                s
            },
        },
        Headline::Ipv6Broken => match lang {
            Lang::En => "Your IPv6 path is broken (IPv4 is fine)".to_owned(),
            Lang::Ja => "IPv6 経路が壊れています (IPv4 は正常)".to_owned(),
        },
        Headline::TlsCertExpired => match lang {
            Lang::En => "The server's TLS certificate has expired. This is not a network problem".to_owned(),
            Lang::Ja => "サーバの TLS 証明書が期限切れです。ネットワークのせいではありません".to_owned(),
        },
        Headline::TlsIntercepted => match lang {
            Lang::En => "Your TLS traffic is most likely being intercepted in transit".to_owned(),
            Lang::Ja => "TLS 通信が途中で傍受されている可能性が高いです".to_owned(),
        },
        Headline::TlsCertInvalid => match lang {
            Lang::En => "The server's TLS certificate is invalid (chain verification failed)".to_owned(),
            Lang::Ja => "サーバの TLS 証明書が不正です (チェーン検証失敗)".to_owned(),
        },
        Headline::ProxyInterference => match lang {
            Lang::En => "A proxy setting is most likely interfering with your traffic".to_owned(),
            Lang::Ja => "プロキシ設定が通信を妨げている可能性が高いです".to_owned(),
        },
        Headline::ServerSlow => match lang {
            Lang::En => "The server is slow to respond. The network is fine".to_owned(),
            Lang::Ja => "サーバ側の応答が遅いです。ネットワークは正常です".to_owned(),
        },
        Headline::UnstablePath => match lang {
            Lang::En => "The network path is unstable (high packet loss / jitter)".to_owned(),
            Lang::Ja => "ネットワーク経路が不安定です (パケットロス/ジッタ大)".to_owned(),
        },
        Headline::PmtuBlackhole => match lang {
            Lang::En => "Large packets silently vanish on the path (a PMTUD black hole)".to_owned(),
            Lang::Ja => "経路上で大きなパケットだけが黙って消えています (PMTUD ブラックホール)".to_owned(),
        },
        Headline::Udp443Blocked => match lang {
            Lang::En => "UDP port 443 is most likely blocked, so HTTP/3 (QUIC) does not work".to_owned(),
            Lang::Ja => "UDP 443 がブロックされている可能性が高く、HTTP/3 (QUIC) が使えません".to_owned(),
        },
        Headline::NoProblem => match lang {
            Lang::En => "No problem found. The path to this destination is healthy right now".to_owned(),
            Lang::Ja => "問題は見つかりませんでした。少なくとも今、この宛先への経路は健全です".to_owned(),
        },
    }
}

pub open spec fn next_step_text(lang: Lang, h: Headline) -> Seq<char> {
    match h {
        Headline::NameDoesNotExist { .. } => match lang {
            Lang::En => "Check the hostname for typos. If it should be correct, the domain registration may have lapsed"@,
            Lang::Ja => "ホスト名のタイプミスを確認してください。正しいはずなら、ドメインの有効期限切れの可能性があります"@,
        },
        Headline::LocalDnsBroken => match lang {
            Lang::En => "Restart your router, or switch your DNS servers to 1.1.1.1 / 8.8.8.8 as a workaround"@,
            Lang::Ja => "ルータの再起動、または DNS サーバを 1.1.1.1 / 8.8.8.8 に変更して回避できます"@,
        },
        Headline::LocalDnsSlow => match lang {
            Lang::En => "Switching your DNS servers to 1.1.1.1 or 8.8.8.8 should noticeably help"@,
            Lang::Ja => "DNS サーバを 1.1.1.1 または 8.8.8.8 に変更すると改善が見込めます"@,
        },
        Headline::OutboundDead => match lang {
            Lang::En => "Check your cable/Wi-Fi and router. Other sites should be failing too"@,
            Lang::Ja => "ケーブル/Wi-Fi 接続とルータの状態を確認してください。他のサイトも開けないはずです"@,
        },
        Headline::DnsAnswerMismatch => match lang {
            Lang::En => "On a corporate network, ask your administrator. At home, check your router's DNS settings and any security software"@,
            Lang::Ja => "社内ネットワークなら管理者に確認を。家庭ならルータの DNS 設定とセキュリティソフトを確認してください"@,
        },
        Headline::ServerDown { .. } => match lang {
            Lang::En => "Double-check the port number. If it is correct, the service on the server is down"@,
            Lang::Ja => "ポート番号が正しいか確認してください。正しければサーバ側のサービス停止です"@,
        },
        Headline::TcpBlocked { .. } => match lang {
            Lang::En => "Try from another network (e.g. phone tethering) to isolate it. If it works there, a filter on this network is the culprit"@,
            Lang::Ja => "別ネットワーク (スマホのテザリング等) から試して切り分けてください。そちらで繋がるなら今のネットワークのフィルタが原因です"@,
        },
        Headline::Ipv6Broken => match lang {
            Lang::En => "Check the IPv6 settings on your router and ISP line. As a stopgap, you can disable IPv6 in the OS"@,
            Lang::Ja => "ルータ/回線の IPv6 設定を確認してください。応急処置として OS で IPv6 を無効化する手もあります"@,
        },
        Headline::TlsCertExpired => match lang {
            Lang::En => "Ask the server administrator to renew the certificate — or renew it yourself if it is your site"@,
            Lang::Ja => "サーバ管理者に証明書の更新を依頼してください。自分のサイトなら証明書を更新してください"@,
        },
        Headline::TlsIntercepted => match lang {
            Lang::En => "On a corporate network this means SSL inspection is on. Ask your administrator, or install the corporate CA certificate"@,
            Lang::Ja => "社内ネットワークなら SSL インスペクションが有効です。管理者に確認するか、社の CA 証明書を導入してください"@,
        },
        Headline::TlsCertInvalid => match lang {
            Lang::En => "Check that the URL is correct. If it is, the server's certificate is most likely misconfigured"@,
            Lang::Ja => "URL が正しいか確認してください。正しければサーバ側の証明書設定ミスの可能性が高いです"@,
        },
        Headline::ProxyInterference => match lang {
            Lang::En => "Temporarily `unset http_proxy https_proxy` and retry. If that fixes it, the proxy setting is the culprit"@,
            Lang::Ja => "unset http_proxy https_proxy で一時解除して再試行してください。直るならプロキシ設定が犯人です"@,
        },
        Headline::ServerSlow => match lang {
            Lang::En => "Tweaking your line or router will not help. Contact the server administrator, or retry later"@,
            Lang::Ja => "回線やルータをいじっても改善しません。サーバ管理者への連絡か、時間を置いての再試行を"@,
        },
        Headline::UnstablePath => match lang {
            Lang::En => "On Wi-Fi, try a wired connection or the 5 GHz band. If already wired, the problem may be on your ISP's side"@,
            Lang::Ja => "Wi-Fi なら有線接続か 5GHz 帯への変更を試してください。有線なら回線事業者側の問題の可能性があります"@,
        },
        Headline::PmtuBlackhole => match lang {
            Lang::En => "Check the MTU of your VPN or tunnel, or enable MSS clamping on the router"@,
            Lang::Ja => "VPN/トンネルの MTU を確認するか、ルータで MSS clamp を有効にしてください"@,
        },
        Headline::Udp443Blocked => match lang {
            Lang::En => "Ask whoever runs the firewall to allow UDP 443. Until then, browsers fall back to TCP"@,
            Lang::Ja => "ファイアウォールの管理者に UDP 443 の許可を依頼してください。それまではブラウザが TCP にフォールバックします"@,
        },
        Headline::NoProblem => match lang {
            Lang::En => "If the problem is intermittent, run this again while the symptom is happening"@,
            Lang::Ja => "問題が断続的なら、症状が出ている最中にもう一度実行してください"@,
        },
    }
}

/// What to do about it.
pub fn next_step(lang: Lang, h: &Headline) -> (s: &'static str)
    ensures
        s@ == next_step_text(lang, *h),
{
    match h {
        Headline::NameDoesNotExist { .. } => match lang {
            Lang::En => "Check the hostname for typos. If it should be correct, the domain registration may have lapsed",
            Lang::Ja => "ホスト名のタイプミスを確認してください。正しいはずなら、ドメインの有効期限切れの可能性があります",
        },
        Headline::LocalDnsBroken => match lang {
            Lang::En => "Restart your router, or switch your DNS servers to 1.1.1.1 / 8.8.8.8 as a workaround",
            Lang::Ja => "ルータの再起動、または DNS サーバを 1.1.1.1 / 8.8.8.8 に変更して回避できます",
        },
        Headline::LocalDnsSlow => match lang {
            Lang::En => "Switching your DNS servers to 1.1.1.1 or 8.8.8.8 should noticeably help",
            Lang::Ja => "DNS サーバを 1.1.1.1 または 8.8.8.8 に変更すると改善が見込めます",
        },
        Headline::OutboundDead => match lang {
            Lang::En => "Check your cable/Wi-Fi and router. Other sites should be failing too",
            Lang::Ja => "ケーブル/Wi-Fi 接続とルータの状態を確認してください。他のサイトも開けないはずです",
        },
        Headline::DnsAnswerMismatch => match lang {
            Lang::En => "On a corporate network, ask your administrator. At home, check your router's DNS settings and any security software",
            Lang::Ja => "社内ネットワークなら管理者に確認を。家庭ならルータの DNS 設定とセキュリティソフトを確認してください",
        },
        Headline::ServerDown { .. } => match lang {
            Lang::En => "Double-check the port number. If it is correct, the service on the server is down",
            Lang::Ja => "ポート番号が正しいか確認してください。正しければサーバ側のサービス停止です",
        },
        Headline::TcpBlocked { .. } => match lang {
            Lang::En => "Try from another network (e.g. phone tethering) to isolate it. If it works there, a filter on this network is the culprit",
            Lang::Ja => "別ネットワーク (スマホのテザリング等) から試して切り分けてください。そちらで繋がるなら今のネットワークのフィルタが原因です",
        },
        Headline::Ipv6Broken => match lang {
            Lang::En => "Check the IPv6 settings on your router and ISP line. As a stopgap, you can disable IPv6 in the OS",
            Lang::Ja => "ルータ/回線の IPv6 設定を確認してください。応急処置として OS で IPv6 を無効化する手もあります",
        },
        Headline::TlsCertExpired => match lang {
            Lang::En => "Ask the server administrator to renew the certificate — or renew it yourself if it is your site",
            Lang::Ja => "サーバ管理者に証明書の更新を依頼してください。自分のサイトなら証明書を更新してください",
        },
        Headline::TlsIntercepted => match lang {
            Lang::En => "On a corporate network this means SSL inspection is on. Ask your administrator, or install the corporate CA certificate",
            Lang::Ja => "社内ネットワークなら SSL インスペクションが有効です。管理者に確認するか、社の CA 証明書を導入してください",
        },
        Headline::TlsCertInvalid => match lang {
            Lang::En => "Check that the URL is correct. If it is, the server's certificate is most likely misconfigured",
            Lang::Ja => "URL が正しいか確認してください。正しければサーバ側の証明書設定ミスの可能性が高いです",
        },
        Headline::ProxyInterference => match lang {
            Lang::En => "Temporarily `unset http_proxy https_proxy` and retry. If that fixes it, the proxy setting is the culprit",
            Lang::Ja => "unset http_proxy https_proxy で一時解除して再試行してください。直るならプロキシ設定が犯人です",
        },
        Headline::ServerSlow => match lang {
            Lang::En => "Tweaking your line or router will not help. Contact the server administrator, or retry later",
            Lang::Ja => "回線やルータをいじっても改善しません。サーバ管理者への連絡か、時間を置いての再試行を",
        },
        Headline::UnstablePath => match lang {
            Lang::En => "On Wi-Fi, try a wired connection or the 5 GHz band. If already wired, the problem may be on your ISP's side",
            Lang::Ja => "Wi-Fi なら有線接続か 5GHz 帯への変更を試してください。有線なら回線事業者側の問題の可能性があります",
        },
        Headline::PmtuBlackhole => match lang {
            Lang::En => "Check the MTU of your VPN or tunnel, or enable MSS clamping on the router",
            Lang::Ja => "VPN/トンネルの MTU を確認するか、ルータで MSS clamp を有効にしてください",
        },
        Headline::Udp443Blocked => match lang {
            Lang::En => "Ask whoever runs the firewall to allow UDP 443. Until then, browsers fall back to TCP",
            Lang::Ja => "ファイアウォールの管理者に UDP 443 の許可を依頼してください。それまではブラウザが TCP にフォールバックします",
        },
        Headline::NoProblem => match lang {
            Lang::En => "If the problem is intermittent, run this again while the symptom is happening",
            Lang::Ja => "問題が断続的なら、症状が出ている最中にもう一度実行してください",
        },
    }
}

pub open spec fn zone_guidance_text(lang: Lang, zone: HopZone) -> Seq<char> {
    match zone {
        HopZone::Home => match lang {
            Lang::En => "The trace dies inside your home network: check the router/gateway first"@,
            Lang::Ja => "トレースは宅内 (ルータ/ゲートウェイ) で止まっています。まずそこを確認してください"@,
        },
        HopZone::Isp => match lang {
            Lang::En => "The trace dies in your ISP's network: contact your provider if it persists"@,
            Lang::Ja => "トレースは ISP 網内で止まっています。続くようなら回線事業者に問い合わせてください"@,
        },
        HopZone::FarSide => match lang {
            Lang::En => "The trace dies deep in the path: the far side (hosting or server network) is the likely place"@,
            Lang::Ja => "トレースは経路の奥、対岸 (ホスティング/サーバ側) で止まっています"@,
        },
    }
}

/// What the place where the trace ends suggests.
pub fn zone_guidance(lang: Lang, zone: HopZone) -> (s: &'static str)
    ensures
        s@ == zone_guidance_text(lang, zone),
{
    match zone {
        HopZone::Home => match lang {
            Lang::En => "The trace dies inside your home network: check the router/gateway first",
            Lang::Ja => "トレースは宅内 (ルータ/ゲートウェイ) で止まっています。まずそこを確認してください",
        },
        HopZone::Isp => match lang {
            Lang::En => "The trace dies in your ISP's network: contact your provider if it persists",
            Lang::Ja => "トレースは ISP 網内で止まっています。続くようなら回線事業者に問い合わせてください",
        },
        HopZone::FarSide => match lang {
            Lang::En => "The trace dies deep in the path: the far side (hosting or server network) is the likely place",
            Lang::Ja => "トレースは経路の奥、対岸 (ホスティング/サーバ側) で止まっています",
        },
    }
}

/// Adds guidance to a next step.
pub fn append_guidance(base: &str, guidance: &str) -> (s: String)
    ensures
        s@ == base@ + " — "@ + guidance@,
{
    let mut s = base.to_owned();
    s.append(" — ");
    s.append(guidance);
    s
}

pub open spec fn evidence_text(lang: Lang, x: EvidenceView) -> Seq<char> {
    match x {
        EvidenceView::AllSourcesNxDomain => match lang {
            Lang::En => "Every DNS server queried answered NXDOMAIN (no such name)"@,
            Lang::Ja => "問い合わせた全ての DNS サーバが NXDOMAIN (そんな名前は無い) と回答"@,
        },
        EvidenceView::PublicDnsAgrees => match lang {
            Lang::En => "Public DNS (1.1.1.1 / 8.8.8.8) gives the same answer"@,
            Lang::Ja => "パブリック DNS (1.1.1.1 / 8.8.8.8) でも同じ回答"@,
        },
        EvidenceView::PublicDnsResolves => match lang {
            Lang::En => "Public DNS (1.1.1.1 / 8.8.8.8) resolves the name fine"@,
            Lang::Ja => "パブリック DNS (1.1.1.1 / 8.8.8.8) では名前解決に成功"@,
        },
        EvidenceView::LocalDnsSourceFailed { label, outcome } => match lang {
            Lang::En => label + " failed ("@ + outcome_text(lang, outcome) + ")"@,
            Lang::Ja => label + " ("@ + outcome_text(lang, outcome) + ") は失敗"@,
        },
        EvidenceView::AllDnsUnresponsive => match lang {
            Lang::En => "Neither local DNS nor public DNS (1.1.1.1 / 8.8.8.8) responds"@,
            Lang::Ja => "ローカル DNS もパブリック DNS (1.1.1.1 / 8.8.8.8) も応答しない"@,
        },
        EvidenceView::OutboundBlockedSuspected => match lang {
            Lang::En => "Outbound UDP/TCP is most likely not getting through at all, before DNS even matters"@,
            Lang::Ja => "名前解決以前に、外への UDP/TCP が通っていない可能性が高い"@,
        },
        EvidenceView::LocalDnsAnswers { ips } => match lang {
            Lang::En => "local answers: "@ + text::join(ips, ", "@),
            Lang::Ja => "ローカル側の回答: "@ + text::join(ips, ", "@),
        },
        EvidenceView::PublicDnsAnswers { ips } => match lang {
            Lang::En => "public answers: "@ + text::join(ips, ", "@),
            Lang::Ja => "パブリック側の回答: "@ + text::join(ips, ", "@),
        },
        EvidenceView::SplitHorizonSuspected => match lang {
            Lang::En => "Possible split-horizon DNS, filtering, or DNS rewriting"@,
            Lang::Ja => "スプリットホライズン DNS、フィルタリング、または DNS 書き換えの可能性"@,
        },
        EvidenceView::AllConnectionsRefused => match lang {
            Lang::En => "Every connection attempt was immediately refused (RST)"@,
            Lang::Ja => "全ての接続試行が RST (connection refused) で即座に拒否された"@,
        },
        EvidenceView::HostReachable => match lang {
            Lang::En => "The host itself is reachable — the network path is fine"@,
            Lang::Ja => "ホストまでは到達できている = ネットワーク経路は正常"@,
        },
        EvidenceView::DnsOkTcpTimedOut => match lang {
            Lang::En => "Name resolution succeeds, but TCP connections time out on every IP"@,
            Lang::Ja => "名前解決は成功しているが、TCP 接続が全ての IP でタイムアウト"@,
        },
        EvidenceView::FirewallOrDeadPath => match lang {
            Lang::En => "A firewall along the way is dropping the traffic, or the path is dead"@,
            Lang::Ja => "途中のファイアウォールで落とされているか、経路が死んでいる"@,
        },
        EvidenceView::Ipv6ConnectFailed { count } => match lang {
            Lang::En => "TCP connections to all "@ + text::dec(count as nat) + " IPv6 addresses failed"@,
            Lang::Ja => "IPv6 アドレスへの TCP 接続が "@ + text::dec(count as nat) + " 件全て失敗"@,
        },
        EvidenceView::Ipv4Works => match lang {
            Lang::En => "IPv4 connections succeed — fallback keeps things working, but connection setup gets slower"@,
            Lang::Ja => "IPv4 への接続は成功 — フォールバックで繋がるが、接続開始が遅くなる"@,
        },
        EvidenceView::CertExpiredDaysAgo { days } => match lang {
            Lang::En => "The certificate expired "@ + text::signed_dec(days as int) + " days ago"@,
            Lang::Ja => "証明書は "@ + text::signed_dec(days as int) + " 日前に失効"@,
        },
        EvidenceView::TcpFineSoPathOk => match lang {
            Lang::En => "TCP connects fine — the path itself is healthy"@,
            Lang::Ja => "TCP 接続までは正常 = 経路は問題なし"@,
        },
        EvidenceView::PresentedIssuer { issuer } => match lang {
            Lang::En => "presented certificate issuer: "@ + issuer,
            Lang::Ja => "提示された証明書の発行者: "@ + issuer,
        },
        EvidenceView::MiddleboxIssuer => match lang {
            Lang::En => "The issuer looks like a middlebox (firewall/proxy product), not a real certificate authority"@,
            Lang::Ja => "本来の認証局ではなく、ミドルボックス (FW/プロキシ製品) 由来と思われる発行者"@,
        },
        EvidenceView::ChainVerifyFailed { error } => match lang {
            Lang::En => "certificate chain verification failed: "@ + error,
            Lang::Ja => "証明書チェーンの検証に失敗: "@ + error,
        },
        EvidenceView::HostnameMismatch => match lang {
            Lang::En => "The certificate's hostname does not match the target"@,
            Lang::Ja => "証明書のホスト名がターゲットと一致しない"@,
        },
        EvidenceView::ProxyVarsDetected { vars } => match lang {
            Lang::En => "proxy environment variables detected: "@ + text::join(vars, ", "@),
            Lang::Ja => "プロキシ環境変数を検出: "@ + text::join(vars, ", "@),
        },
        EvidenceView::TcpOkHttpFailed => match lang {
            Lang::En => "Direct TCP connections succeed, yet the HTTP request fails"@,
            Lang::Ja => "TCP 直結は成功するのに、HTTP リクエストは失敗"@,
        },
        EvidenceView::HttpErrorDetail { error } => match lang {
            Lang::En => "HTTP error: "@ + error,
            Lang::Ja => "HTTP エラー: "@ + error,
        },
        EvidenceView::ConnectFast { ms } => match lang {
            Lang::En => "TCP connects in "@ + text::dec(ms.shown()) + "ms — the path is healthy"@,
            Lang::Ja => "TCP 接続は "@ + text::dec(ms.shown()) + "ms と高速 = 経路は健全"@,
        },
        EvidenceView::TtfbSlow { ms } => match lang {
            Lang::En => "yet the first byte of the response (TTFB) takes "@ + text::dec(ms.shown()) + "ms"@,
            Lang::Ja => "しかし最初の応答 (TTFB) まで "@ + text::dec(ms.shown()) + "ms かかっている"@,
        },
        EvidenceView::ServerSideProcessing => match lang {
            Lang::En => "The slow part is server-side processing (application/database)"@,
            Lang::Ja => "遅いのはサーバの処理 (アプリ/DB) 側"@,
        },
        EvidenceView::ProbeLoss { sent, lost, pct } => match lang {
            Lang::En => text::dec(lost as nat) + " of "@ + text::dec(sent as nat) + " connection probes failed ("@ + text::dec(pct.shown()) + "% loss)"@,
            Lang::Ja => "接続プローブ "@ + text::dec(sent as nat) + " 回中 "@ + text::dec(lost as nat) + " 回失敗 (ロス率 "@ + text::dec(pct.shown()) + "%)"@,
        },
        EvidenceView::RttStats { avg, jitter } => match lang {
            Lang::En => "RTT average "@ + text::dec(avg.shown()) + "ms / jitter "@ + text::dec(jitter.shown()) + "ms"@,
            Lang::Ja => "RTT 平均 "@ + text::dec(avg.shown()) + "ms / ジッタ "@ + text::dec(jitter.shown()) + "ms"@,
        },
        EvidenceView::UnstablePathSymptom => match lang {
            Lang::En => "An unstable path — the classic cause of \"it feels slow\" and \"it keeps cutting out\""@,
            Lang::Ja => "経路が不安定 — 体感の「重い」「途切れる」の典型パターン"@,
        },
        EvidenceView::LocalDnsLatency { ms } => match lang {
            Lang::En => "local DNS takes "@ + text::dec(ms.shown()) + "ms to answer"@,
            Lang::Ja => "ローカル DNS の応答に "@ + text::dec(ms.shown()) + "ms"@,
        },
        EvidenceView::PublicDnsLatency { ms } => match lang {
            Lang::En => "public DNS (1.1.1.1 / 8.8.8.8) answers in "@ + text::dec(ms.shown()) + "ms"@,
            Lang::Ja => "パブリック DNS (1.1.1.1 / 8.8.8.8) は "@ + text::dec(ms.shown()) + "ms と高速"@,
        },
        EvidenceView::LatencyAddedEveryPage => match lang {
            Lang::En => "That difference is added to every page you open"@,
            Lang::Ja => "ページを開くたびにこの差が上乗せされる"@,
        },
        EvidenceView::Http3Advertised => match lang {
            Lang::En => "the server advertises HTTP/3 (alt-svc: h3)"@,
            Lang::Ja => "サーバは HTTP/3 を広告している (alt-svc: h3)"@,
        },
        EvidenceView::QuicSilent => match lang {
            Lang::En => "QUIC handshakes time out without any response"@,
            Lang::Ja => "QUIC ハンドシェイクは応答が一切なくタイムアウト"@,
        },
        EvidenceView::OtherStagesHealthy => match lang {
            Lang::En => "TCP, TLS and HTTP are all healthy — a firewall is most likely dropping UDP 443"@,
            Lang::Ja => "TCP/TLS/HTTP は全て正常 = ファイアウォールが UDP 443 を落としている可能性が高い"@,
        },
        EvidenceView::DnsHealthy => match lang {
            Lang::En => "name resolution: OK"@,
            Lang::Ja => "名前解決: 正常"@,
        },
        EvidenceView::TcpHealthy { ms } => match lang {
            Lang::En => "TCP connect: OK ("@ + text::dec(ms.shown()) + "ms)"@,
            Lang::Ja => "TCP 接続: 正常 ("@ + text::dec(ms.shown()) + "ms)"@,
        },
        EvidenceView::TlsHealthy { version, days } => match lang {
            Lang::En => "TLS: OK ("@ + version + ", certificate valid for "@ + text::signed_dec(days as int) + " more days)"@,
            Lang::Ja => "TLS: 正常 ("@ + version + ", 証明書残り "@ + text::signed_dec(days as int) + " 日)"@,
        },
        EvidenceView::HttpHealthy { status, ttfb } => "HTTP: "@ + text::dec(status as nat) + " (TTFB "@ + text::dec(ttfb.shown()) + "ms)"@,
        EvidenceView::PathHealthy { loss_pct, jitter } => match lang {
            Lang::En => "path quality: loss "@ + text::dec(loss_pct.shown()) + "% / jitter "@ + text::dec(jitter.shown()) + "ms"@,
            Lang::Ja => "経路品質: ロス "@ + text::dec(loss_pct.shown()) + "% / ジッタ "@ + text::dec(jitter.shown()) + "ms"@,
        },
        EvidenceView::AllStagesOk => match lang {
            Lang::En => "no anomalies in any stage that ran"@,
            Lang::Ja => "実施した全ステージで異常なし"@,
        },
        EvidenceView::LastRespondingHop { ip, index, path_len } => match lang {
            Lang::En => "last responding hop: "@ + ip + " (hop "@ + text::dec(index as nat) + " of ~"@ + text::dec(path_len as nat) + ")"@,
            Lang::Ja => "最後に応答したホップ: "@ + ip + " (ホップ "@ + text::dec(index as nat) + " / 推定経路長 ~"@ + text::dec(path_len as nat) + ")"@,
        },
        EvidenceView::PmtuBlackholeObserved { mtu } => match lang {
            Lang::En => "the path MTU is "@ + text::dec(mtu as nat) + " bytes, and larger packets vanish without any ICMP reply"@,
            Lang::Ja => "経路 MTU が "@ + text::dec(mtu as nat) + " バイトで、超過パケットは ICMP 通知なしで消えている"@,
        },
    }
}

/// One item of the grounds.
pub fn evidence_line(lang: Lang, x: &Evidence) -> (s: String)
    ensures
        s@ == evidence_text(lang, x@),
{
    match x {
        Evidence::AllSourcesNxDomain => match lang {
            Lang::En => "Every DNS server queried answered NXDOMAIN (no such name)".to_owned(),
            Lang::Ja => "問い合わせた全ての DNS サーバが NXDOMAIN (そんな名前は無い) と回答".to_owned(),
        },
        Evidence::PublicDnsAgrees => match lang {
            Lang::En => "Public DNS (1.1.1.1 / 8.8.8.8) gives the same answer".to_owned(),
            Lang::Ja => "パブリック DNS (1.1.1.1 / 8.8.8.8) でも同じ回答".to_owned(),
        },
        Evidence::PublicDnsResolves => match lang {
            Lang::En => "Public DNS (1.1.1.1 / 8.8.8.8) resolves the name fine".to_owned(),
            Lang::Ja => "パブリック DNS (1.1.1.1 / 8.8.8.8) では名前解決に成功".to_owned(),
        },
        Evidence::LocalDnsSourceFailed { label, outcome } => match lang {
            Lang::En => {
                let mut s = label.clone();
                s.append(" failed (");
                s.append(dns_outcome_label(lang, outcome).as_str());
                s.append(")");
                s
            },
            Lang::Ja => {
                let mut s = label.clone();
                s.append(" (");
                s.append(dns_outcome_label(lang, outcome).as_str());
                s.append(") は失敗");
                s
            },
        },
        Evidence::AllDnsUnresponsive => match lang {
            Lang::En => "Neither local DNS nor public DNS (1.1.1.1 / 8.8.8.8) responds".to_owned(),
            Lang::Ja => "ローカル DNS もパブリック DNS (1.1.1.1 / 8.8.8.8) も応答しない".to_owned(),
        },
        Evidence::OutboundBlockedSuspected => match lang {
            Lang::En => "Outbound UDP/TCP is most likely not getting through at all, before DNS even matters".to_owned(),
            Lang::Ja => "名前解決以前に、外への UDP/TCP が通っていない可能性が高い".to_owned(),
        },
        Evidence::LocalDnsAnswers { ips } => match lang {
            Lang::En => {
                let mut s = "local answers: ".to_owned();
                s.append(text::join_texts(ips.as_slice(), ", ").as_str());
                s
            },
            Lang::Ja => {
                let mut s = "ローカル側の回答: ".to_owned();
                s.append(text::join_texts(ips.as_slice(), ", ").as_str());
                s
            },
        },
        Evidence::PublicDnsAnswers { ips } => match lang {
            Lang::En => {
                let mut s = "public answers: ".to_owned();
                s.append(text::join_texts(ips.as_slice(), ", ").as_str());
                s
            },
            Lang::Ja => {
                let mut s = "パブリック側の回答: ".to_owned();
                s.append(text::join_texts(ips.as_slice(), ", ").as_str());
                s
            },
        },
        Evidence::SplitHorizonSuspected => match lang {
            Lang::En => "Possible split-horizon DNS, filtering, or DNS rewriting".to_owned(),
            Lang::Ja => "スプリットホライズン DNS、フィルタリング、または DNS 書き換えの可能性".to_owned(),
        },
        Evidence::AllConnectionsRefused => match lang {
            Lang::En => "Every connection attempt was immediately refused (RST)".to_owned(),
            Lang::Ja => "全ての接続試行が RST (connection refused) で即座に拒否された".to_owned(),
        },
        Evidence::HostReachable => match lang {
            Lang::En => "The host itself is reachable — the network path is fine".to_owned(),
            Lang::Ja => "ホストまでは到達できている = ネットワーク経路は正常".to_owned(),
        },
        Evidence::DnsOkTcpTimedOut => match lang {
            Lang::En => "Name resolution succeeds, but TCP connections time out on every IP".to_owned(),
            Lang::Ja => "名前解決は成功しているが、TCP 接続が全ての IP でタイムアウト".to_owned(),
        },
        Evidence::FirewallOrDeadPath => match lang {
            Lang::En => "A firewall along the way is dropping the traffic, or the path is dead".to_owned(),
            Lang::Ja => "途中のファイアウォールで落とされているか、経路が死んでいる".to_owned(),
        },
        Evidence::Ipv6ConnectFailed { count } => match lang {
            Lang::En => {
                let mut s = "TCP connections to all ".to_owned();
                text::push_dec(&mut s, *count as u64);
                s.append(" IPv6 addresses failed");
                s
            },
            Lang::Ja => {
                let mut s = "IPv6 アドレスへの TCP 接続が ".to_owned();
                text::push_dec(&mut s, *count as u64);
                s.append(" 件全て失敗");
                s
            },
        },
        Evidence::Ipv4Works => match lang {
            Lang::En => "IPv4 connections succeed — fallback keeps things working, but connection setup gets slower".to_owned(),
            Lang::Ja => "IPv4 への接続は成功 — フォールバックで繋がるが、接続開始が遅くなる".to_owned(),
        },
        Evidence::CertExpiredDaysAgo { days } => match lang {
            Lang::En => {
                let mut s = "The certificate expired ".to_owned();
                s.append(text::signed_text(*days).as_str());
                s.append(" days ago");
                s
            },
            Lang::Ja => {
                let mut s = "証明書は ".to_owned();
                s.append(text::signed_text(*days).as_str());
                s.append(" 日前に失効");
                s
            },
        },
        Evidence::TcpFineSoPathOk => match lang {
            Lang::En => "TCP connects fine — the path itself is healthy".to_owned(),
            Lang::Ja => "TCP 接続までは正常 = 経路は問題なし".to_owned(),
        },
        Evidence::PresentedIssuer { issuer } => match lang {
            Lang::En => {
                let mut s = "presented certificate issuer: ".to_owned();
                s.append(issuer.as_str());
                s
            },
            Lang::Ja => {
                let mut s = "提示された証明書の発行者: ".to_owned();
                s.append(issuer.as_str());
                s
            },
        },
        Evidence::MiddleboxIssuer => match lang {
            Lang::En => "The issuer looks like a middlebox (firewall/proxy product), not a real certificate authority".to_owned(),
            Lang::Ja => "本来の認証局ではなく、ミドルボックス (FW/プロキシ製品) 由来と思われる発行者".to_owned(),
        },
        Evidence::ChainVerifyFailed { error } => match lang {
            Lang::En => {
                let mut s = "certificate chain verification failed: ".to_owned();
                s.append(error.as_str());
                s
            },
            Lang::Ja => {
                let mut s = "証明書チェーンの検証に失敗: ".to_owned();
                s.append(error.as_str());
                s
            },
        },
        Evidence::HostnameMismatch => match lang {
            Lang::En => "The certificate's hostname does not match the target".to_owned(),
            Lang::Ja => "証明書のホスト名がターゲットと一致しない".to_owned(),
        },
        Evidence::ProxyVarsDetected { vars } => match lang {
            Lang::En => {
                let mut s = "proxy environment variables detected: ".to_owned();
                s.append(text::join_texts(vars.as_slice(), ", ").as_str());
                s
            },
            Lang::Ja => {
                let mut s = "プロキシ環境変数を検出: ".to_owned();
                s.append(text::join_texts(vars.as_slice(), ", ").as_str());
                s
            },
        },
        Evidence::TcpOkHttpFailed => match lang {
            Lang::En => "Direct TCP connections succeed, yet the HTTP request fails".to_owned(),
            Lang::Ja => "TCP 直結は成功するのに、HTTP リクエストは失敗".to_owned(),
        },
        Evidence::HttpErrorDetail { error } => match lang {
            Lang::En => {
                let mut s = "HTTP error: ".to_owned();
                s.append(error.as_str());
                s
            },
            Lang::Ja => {
                let mut s = "HTTP エラー: ".to_owned();
                s.append(error.as_str());
                s
            },
        },
        Evidence::ConnectFast { ms } => match lang {
            Lang::En => {
                let mut s = "TCP connects in ".to_owned();
                text::push_dec(&mut s, ms.to_shown());
                s.append("ms — the path is healthy");
                s
            },
            Lang::Ja => {
                let mut s = "TCP 接続は ".to_owned();
                text::push_dec(&mut s, ms.to_shown());
                s.append("ms と高速 = 経路は健全");
                s
            },
        },
        Evidence::TtfbSlow { ms } => match lang {
            Lang::En => {
                let mut s = "yet the first byte of the response (TTFB) takes ".to_owned();
                text::push_dec(&mut s, ms.to_shown());
                s.append("ms");
                s
            },
            Lang::Ja => {
                let mut s = "しかし最初の応答 (TTFB) まで ".to_owned();
                text::push_dec(&mut s, ms.to_shown());
                s.append("ms かかっている");
                s
            },
        },
        Evidence::ServerSideProcessing => match lang {
            Lang::En => "The slow part is server-side processing (application/database)".to_owned(),
            Lang::Ja => "遅いのはサーバの処理 (アプリ/DB) 側".to_owned(),
        },
        Evidence::ProbeLoss { sent, lost, pct } => match lang {
            Lang::En => {
                let mut s = text::dec_text(*lost as u64);
                s.append(" of ");
                text::push_dec(&mut s, *sent as u64);
                s.append(" connection probes failed (");
                text::push_dec(&mut s, pct.to_shown());
                s.append("% loss)");
                s
            },
            Lang::Ja => {
                let mut s = "接続プローブ ".to_owned();
                text::push_dec(&mut s, *sent as u64);
                s.append(" 回中 ");
                text::push_dec(&mut s, *lost as u64);
                s.append(" 回失敗 (ロス率 ");
                text::push_dec(&mut s, pct.to_shown());
                s.append("%)");
                s
            },
        },
        Evidence::RttStats { avg, jitter } => match lang {
            Lang::En => {
                let mut s = "RTT average ".to_owned();
                text::push_dec(&mut s, avg.to_shown());
                s.append("ms / jitter ");
                text::push_dec(&mut s, jitter.to_shown());
                s.append("ms");
                s
            },
            Lang::Ja => {
                let mut s = "RTT 平均 ".to_owned();
                text::push_dec(&mut s, avg.to_shown());
                s.append("ms / ジッタ ");
                text::push_dec(&mut s, jitter.to_shown());
                s.append("ms");
                s
            },
        },
        Evidence::UnstablePathSymptom => match lang {
            Lang::En => "An unstable path — the classic cause of \"it feels slow\" and \"it keeps cutting out\"".to_owned(),
            Lang::Ja => "経路が不安定 — 体感の「重い」「途切れる」の典型パターン".to_owned(),
        },
        Evidence::LocalDnsLatency { ms } => match lang {
            Lang::En => {
                let mut s = "local DNS takes ".to_owned();
                text::push_dec(&mut s, ms.to_shown());
                s.append("ms to answer");
                s
            },
            Lang::Ja => {
                let mut s = "ローカル DNS の応答に ".to_owned();
                text::push_dec(&mut s, ms.to_shown());
                s.append("ms");
                s
            },
        },
        Evidence::PublicDnsLatency { ms } => match lang {
            Lang::En => {
                let mut s = "public DNS (1.1.1.1 / 8.8.8.8) answers in ".to_owned();
                text::push_dec(&mut s, ms.to_shown());
                s.append("ms");
                s
            },
            Lang::Ja => {
                let mut s = "パブリック DNS (1.1.1.1 / 8.8.8.8) は ".to_owned();
                text::push_dec(&mut s, ms.to_shown());
                s.append("ms と高速");
                s
            },
        },
        Evidence::LatencyAddedEveryPage => match lang {
            Lang::En => "That difference is added to every page you open".to_owned(),
            Lang::Ja => "ページを開くたびにこの差が上乗せされる".to_owned(),
        },
        Evidence::Http3Advertised => match lang {
            Lang::En => "the server advertises HTTP/3 (alt-svc: h3)".to_owned(),
            Lang::Ja => "サーバは HTTP/3 を広告している (alt-svc: h3)".to_owned(),
        },
        Evidence::QuicSilent => match lang {
            Lang::En => "QUIC handshakes time out without any response".to_owned(),
            Lang::Ja => "QUIC ハンドシェイクは応答が一切なくタイムアウト".to_owned(),
        },
        Evidence::OtherStagesHealthy => match lang {
            Lang::En => "TCP, TLS and HTTP are all healthy — a firewall is most likely dropping UDP 443".to_owned(),
            Lang::Ja => "TCP/TLS/HTTP は全て正常 = ファイアウォールが UDP 443 を落としている可能性が高い".to_owned(),
        },
        Evidence::DnsHealthy => match lang {
            Lang::En => "name resolution: OK".to_owned(),
            Lang::Ja => "名前解決: 正常".to_owned(),
        },
        Evidence::TcpHealthy { ms } => match lang {
            Lang::En => {
                let mut s = "TCP connect: OK (".to_owned();
                text::push_dec(&mut s, ms.to_shown());
                s.append("ms)");
                s
            },
            Lang::Ja => {
                let mut s = "TCP 接続: 正常 (".to_owned();
                text::push_dec(&mut s, ms.to_shown());
                s.append("ms)");
                s
            },
        },
        Evidence::TlsHealthy { version, days } => match lang {
            Lang::En => {
                let mut s = "TLS: OK (".to_owned();
                s.append(version.as_str());
                s.append(", certificate valid for ");
                s.append(text::signed_text(*days).as_str());
                s.append(" more days)");
                s
            },
            Lang::Ja => {
                let mut s = "TLS: 正常 (".to_owned();
                s.append(version.as_str());
                s.append(", 証明書残り ");
                s.append(text::signed_text(*days).as_str());
                s.append(" 日)");
                s
            },
        },
        Evidence::HttpHealthy { status, ttfb } => {
            let mut s = "HTTP: ".to_owned();
            text::push_dec(&mut s, *status as u64);
            s.append(" (TTFB ");
            text::push_dec(&mut s, ttfb.to_shown());
            s.append("ms)");
            s
        },
        Evidence::PathHealthy { loss_pct, jitter } => match lang {
            Lang::En => {
                let mut s = "path quality: loss ".to_owned();
                text::push_dec(&mut s, loss_pct.to_shown());
                s.append("% / jitter ");
                text::push_dec(&mut s, jitter.to_shown());
                s.append("ms");
                s
            },
            Lang::Ja => {
                let mut s = "経路品質: ロス ".to_owned();
                text::push_dec(&mut s, loss_pct.to_shown());
                s.append("% / ジッタ ");
                text::push_dec(&mut s, jitter.to_shown());
                s.append("ms");
                s
            },
        },
        Evidence::AllStagesOk => match lang {
            Lang::En => "no anomalies in any stage that ran".to_owned(),
            Lang::Ja => "実施した全ステージで異常なし".to_owned(),
        },
        Evidence::LastRespondingHop { ip, index, path_len } => match lang {
            Lang::En => {
                let mut s = "last responding hop: ".to_owned();
                s.append(ip.as_str());
                s.append(" (hop ");
                text::push_dec(&mut s, *index as u64);
                s.append(" of ~");
                text::push_dec(&mut s, *path_len as u64);
                s.append(")");
                s
            },
            Lang::Ja => {
                let mut s = "最後に応答したホップ: ".to_owned();
                s.append(ip.as_str());
                s.append(" (ホップ ");
                text::push_dec(&mut s, *index as u64);
                s.append(" / 推定経路長 ~");
                text::push_dec(&mut s, *path_len as u64);
                s.append(")");
                s
            },
        },
        Evidence::PmtuBlackholeObserved { mtu } => match lang {
            Lang::En => {
                let mut s = "the path MTU is ".to_owned();
                text::push_dec(&mut s, *mtu as u64);
                s.append(" bytes, and larger packets vanish without any ICMP reply");
                s
            },
            Lang::Ja => {
                let mut s = "経路 MTU が ".to_owned();
                text::push_dec(&mut s, *mtu as u64);
                s.append(" バイトで、超過パケットは ICMP 通知なしで消えている");
                s
            },
        },
    }
}

pub open spec fn finding_text(lang: Lang, x: FindingView) -> Seq<char> {
    match x {
        FindingView::HostsOverride { host, ip } => match lang {
            Lang::En => "/etc/hosts has an override for \""@ + host + "\" ("@ + ip + ") — connections ignore DNS"@,
            Lang::Ja => "/etc/hosts に「"@ + host + "」の上書きエントリあり ("@ + ip + ") — DNS を無視して接続しています"@,
        },
        FindingView::ProxyEnvPresent { names } => match lang {
            Lang::En => "proxy environment variables are set: "@ + text::join(names, ", "@),
            Lang::Ja => "プロキシ環境変数が設定されています: "@ + text::join(names, ", "@),
        },
        FindingView::DnsAnswersDiffer { local, public } => match lang {
            Lang::En => "local and public DNS answers differ (local: "@ + text::join(local, ", "@) + " / public: "@ + text::join(public, ", "@) + ") — this can be normal with CDNs"@,
            Lang::Ja => "ローカル DNS とパブリック DNS で回答が異なります (ローカル: "@ + text::join(local, ", "@) + " / パブリック: "@ + text::join(public, ", "@) + ") — CDN なら正常なこともあります"@,
        },
        FindingView::CertExpiresSoon { days } => match lang {
            Lang::En => "the TLS certificate expires in only "@ + text::signed_dec(days as int) + " days"@,
            Lang::Ja => "TLS 証明書の残り有効期間が "@ + text::signed_dec(days as int) + " 日と短い"@,
        },
        FindingView::QuicTimedOut { h3_advertised } => match lang {
            Lang::En => if h3_advertised {
                "the QUIC handshake timed out although HTTP/3 is advertised — UDP 443 may be blocked"@
            } else {
                "the QUIC handshake timed out, which is expected where HTTP/3 is not advertised"@
            },
            Lang::Ja => if h3_advertised {
                "HTTP/3 が広告されているのに QUIC ハンドシェイクがタイムアウト — UDP 443 がブロックされている可能性"@
            } else {
                "QUIC ハンドシェイクがタイムアウト (HTTP/3 の広告がないため想定内)"@
            },
        },
        FindingView::QuicHandshakeFailed { error } => match lang {
            Lang::En => "the QUIC handshake failed: "@ + error + " — not a network problem"@,
            Lang::Ja => "QUIC ハンドシェイク失敗: "@ + error + " — ネットワークの問題ではありません"@,
        },
        FindingView::QuicLocalError { error } => match lang {
            Lang::En => "the QUIC probe could not run: "@ + error,
            Lang::Ja => "QUIC プローブを実行できません: "@ + error,
        },
    }
}

/// One secondary finding.
pub fn finding_line(lang: Lang, x: &Finding) -> (s: String)
    ensures
        s@ == finding_text(lang, x@),
{
    match x {
        Finding::HostsOverride { host, ip } => match lang {
            Lang::En => {
                let mut s = "/etc/hosts has an override for \"".to_owned();
                s.append(host.as_str());
                s.append("\" (");
                s.append(ip.as_str());
                s.append(") — connections ignore DNS");
                s
            },
            Lang::Ja => {
                let mut s = "/etc/hosts に「".to_owned();
                s.append(host.as_str());
                s.append("」の上書きエントリあり (");
                s.append(ip.as_str());
                s.append(") — DNS を無視して接続しています");
                s
            },
        },
        Finding::ProxyEnvPresent { names } => match lang {
            Lang::En => {
                let mut s = "proxy environment variables are set: ".to_owned();
                s.append(text::join_texts(names.as_slice(), ", ").as_str());
                s
            },
            Lang::Ja => {
                let mut s = "プロキシ環境変数が設定されています: ".to_owned();
                s.append(text::join_texts(names.as_slice(), ", ").as_str());
                s
            },
        },
        Finding::DnsAnswersDiffer { local, public } => match lang {
            Lang::En => {
                let mut s = "local and public DNS answers differ (local: ".to_owned();
                s.append(text::join_texts(local.as_slice(), ", ").as_str());
                s.append(" / public: ");
                s.append(text::join_texts(public.as_slice(), ", ").as_str());
                s.append(") — this can be normal with CDNs");
                s
            },
            Lang::Ja => {
                let mut s = "ローカル DNS とパブリック DNS で回答が異なります (ローカル: ".to_owned();
                s.append(text::join_texts(local.as_slice(), ", ").as_str());
                s.append(" / パブリック: ");
                s.append(text::join_texts(public.as_slice(), ", ").as_str());
                s.append(") — CDN なら正常なこともあります");
                s
            },
        },
        Finding::CertExpiresSoon { days } => match lang {
            Lang::En => {
                let mut s = "the TLS certificate expires in only ".to_owned();
                s.append(text::signed_text(*days).as_str());
                s.append(" days");
                s
            },
            Lang::Ja => {
                let mut s = "TLS 証明書の残り有効期間が ".to_owned();
                s.append(text::signed_text(*days).as_str());
                s.append(" 日と短い");
                s
            },
        },
        Finding::QuicTimedOut { h3_advertised } => match lang {
            Lang::En => if *h3_advertised {
                "the QUIC handshake timed out although HTTP/3 is advertised — UDP 443 may be blocked".to_owned()
            } else {
                "the QUIC handshake timed out, which is expected where HTTP/3 is not advertised".to_owned()
            },
            Lang::Ja => if *h3_advertised {
                "HTTP/3 が広告されているのに QUIC ハンドシェイクがタイムアウト — UDP 443 がブロックされている可能性".to_owned()
            } else {
                "QUIC ハンドシェイクがタイムアウト (HTTP/3 の広告がないため想定内)".to_owned()
            },
        },
        Finding::QuicHandshakeFailed { error } => match lang {
            Lang::En => {
                let mut s = "the QUIC handshake failed: ".to_owned();
                s.append(error.as_str());
                s.append(" — not a network problem");
                s
            },
            Lang::Ja => {
                let mut s = "QUIC ハンドシェイク失敗: ".to_owned();
                s.append(error.as_str());
                s.append(" — ネットワークの問題ではありません");
                s
            },
        },
        Finding::QuicLocalError { error } => match lang {
            Lang::En => {
                let mut s = "the QUIC probe could not run: ".to_owned();
                s.append(error.as_str());
                s
            },
            Lang::Ja => {
                let mut s = "QUIC プローブを実行できません: ".to_owned();
                s.append(error.as_str());
                s
            },
        },
    }
}

} // verus!
