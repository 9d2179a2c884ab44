//! What the statements and the next steps are about.

use crate::i18n::laws;
use crate::i18n::ruling;
use crate::i18n::Lang;
use crate::text;
use crate::verdict::Headline;
use vstd::prelude::*;

verus! {

proof fn lemma_at(s: Seq<char>, m: Seq<char>, i: int)
    requires
        0 <= i <= s.len() - m.len(),
        s.subrange(i, i + m.len()) =~= m,
    ensures
        text::laws::holds(s, m),
{
    assert(text::occurs_at(s, m, i));
    text::laws::law_search(s, m);
}

proof fn lemma_within(a: Seq<char>, s: Seq<char>, b: Seq<char>, m: Seq<char>)
    requires
        text::laws::holds(s, m),
    ensures
        text::laws::holds(a + s + b, m),
{
    let (x, y) = choose|x: Seq<char>, y: Seq<char>| text::laws::is_made_of(s, x, m, y);
    assert(a + s + b =~= (a + x) + m + (y + b));
    assert(text::laws::is_made_of(a + s + b, a + x, m, y + b));
}

/// What a statement says in any case.
pub open spec fn key_phrase(lang: Lang, h: Headline) -> Seq<char> {
    match h {
        Headline::NameDoesNotExist { .. } => laws::say(lang, "does not exist"@, "存在しません"@),
        Headline::LocalDnsBroken => laws::say(lang, "Local DNS is not responding"@, "機能していません"@),
        Headline::LocalDnsSlow => laws::say(lang, "local DNS resolver is slow"@, "ローカル DNS リゾルバが遅く"@),
        Headline::OutboundDead => laws::say(lang, "outbound traffic is failing"@, "外向きの通信が全滅"@),
        Headline::DnsAnswerMismatch => laws::say(lang, "different answers"@, "回答が異なり"@),
        Headline::ServerDown { .. } => laws::say(lang, "nothing is listening on port"@, "待ち受けていません"@),
        Headline::TcpBlocked { .. } => laws::say(lang, "time out"@, "タイムアウト"@),
        Headline::Ipv6Broken => laws::say(lang, "IPv6 path is broken"@, "IPv6 経路が壊れています"@),
        Headline::TlsCertExpired => laws::say(lang, "certificate has expired"@, "証明書が期限切れ"@),
        Headline::TlsIntercepted => laws::say(lang, "intercepted"@, "傍受"@),
        Headline::TlsCertInvalid => laws::say(lang, "certificate is invalid"@, "証明書が不正"@),
        Headline::ProxyInterference => laws::say(lang, "proxy setting"@, "プロキシ設定"@),
        Headline::ServerSlow => laws::say(lang, "server is slow"@, "サーバ側の応答が遅い"@),
        Headline::UnstablePath => laws::say(lang, "path is unstable"@, "経路が不安定"@),
        Headline::PmtuBlackhole => laws::say(lang, "black hole"@, "ブラックホール"@),
        Headline::Udp443Blocked => laws::say(lang, "UDP port 443"@, "UDP 443"@),
        Headline::NoProblem => laws::say(lang, "No problem found"@, "問題は見つかりませんでした"@),
    }
}

/// What a next step says in any case.
pub open spec fn key_advice(lang: Lang, h: Headline) -> Seq<char> {
    match h {
        Headline::NameDoesNotExist { .. } => laws::say(lang, "typos"@, "タイプミス"@),
        Headline::LocalDnsBroken => laws::say(lang, "Restart your router"@, "ルータの再起動"@),
        Headline::LocalDnsSlow => laws::say(lang, "should noticeably help"@, "改善が見込めます"@),
        Headline::OutboundDead => laws::say(lang, "cable/Wi-Fi"@, "ケーブル/Wi-Fi"@),
        Headline::DnsAnswerMismatch => laws::say(lang, "router's DNS settings"@, "ルータの DNS 設定"@),
        Headline::ServerDown { .. } => laws::say(lang, "the service on the server is down"@, "サービス停止"@),
        Headline::TcpBlocked { .. } => laws::say(lang, "another network"@, "別ネットワーク"@),
        Headline::Ipv6Broken => laws::say(lang, "IPv6 settings"@, "IPv6 設定"@),
        Headline::TlsCertExpired => laws::say(lang, "renew the certificate"@, "証明書の更新"@),
        Headline::TlsIntercepted => laws::say(lang, "SSL inspection"@, "SSL インスペクション"@),
        Headline::TlsCertInvalid => laws::say(lang, "misconfigured"@, "証明書設定ミス"@),
        Headline::ProxyInterference => laws::say(lang, "unset http_proxy https_proxy"@, "unset http_proxy https_proxy"@),
        Headline::ServerSlow => laws::say(lang, "will not help"@, "改善しません"@),
        Headline::UnstablePath => laws::say(lang, "wired connection"@, "有線接続"@),
        Headline::PmtuBlackhole => laws::say(lang, "MSS clamping"@, "MSS clamp"@),
        Headline::Udp443Blocked => laws::say(lang, "allow UDP 443"@, "UDP 443 の許可"@),
        Headline::NoProblem => laws::say(lang, "intermittent"@, "断続的"@),
    }
}

proof fn lemma_english_statement(h: Headline)
    ensures
        text::laws::holds(ruling::headline_text(Lang::En, h), key_phrase(Lang::En, h)),
{
    match h {
        Headline::NameDoesNotExist { host } => {
            reveal_strlit("\" does not exist. This is not a network problem");
            reveal_strlit("does not exist");
            lemma_at("\" does not exist. This is not a network problem"@, "does not exist"@, 2);
            lemma_within("The domain \""@ + host@, "\" does not exist. This is not a network problem"@, Seq::empty(), "does not exist"@);
            assert(ruling::headline_text(Lang::En, h) =~= ("The domain \""@ + host@) + "\" does not exist. This is not a network problem"@ + Seq::empty());
        },
        Headline::LocalDnsBroken => {
            reveal_strlit("Local DNS is not responding while public DNS works");
            reveal_strlit("Local DNS is not responding");
            lemma_at("Local DNS is not responding while public DNS works"@, "Local DNS is not responding"@, 0);
        },
        Headline::LocalDnsSlow => {
            reveal_strlit("Your local DNS resolver is slow, dragging down everything");
            reveal_strlit("local DNS resolver is slow");
            lemma_at("Your local DNS resolver is slow, dragging down everything"@, "local DNS resolver is slow"@, 5);
        },
        Headline::OutboundDead => {
            reveal_strlit("All outbound traffic is failing. Your network connection itself is down");
            reveal_strlit("outbound traffic is failing");
            lemma_at("All outbound traffic is failing. Your network connection itself is down"@, "outbound traffic is failing"@, 4);
        },
        Headline::DnsAnswerMismatch => {
            reveal_strlit("Local and public DNS give different answers, and the connection fails");
            reveal_strlit("different answers");
            lemma_at("Local and public DNS give different answers, and the connection fails"@, "different answers"@, 26);
        },
        Headline::ServerDown { port } => {
            reveal_strlit("The server is up, but nothing is listening on port ");
            reveal_strlit("nothing is listening on port");
            lemma_at("The server is up, but nothing is listening on port "@, "nothing is listening on port"@, 22);
            lemma_within(Seq::empty(), "The server is up, but nothing is listening on port "@, text::dec(port as nat), "nothing is listening on port"@);
            assert(ruling::headline_text(Lang::En, h) =~= Seq::empty() + "The server is up, but nothing is listening on port "@ + text::dec(port as nat));
        },
        Headline::TcpBlocked { port } => {
            reveal_strlit(" time out (filtered or unreachable)");
            reveal_strlit("time out");
            lemma_at(" time out (filtered or unreachable)"@, "time out"@, 1);
            lemma_within("TCP connections to port "@ + text::dec(port as nat), " time out (filtered or unreachable)"@, Seq::empty(), "time out"@);
            assert(ruling::headline_text(Lang::En, h) =~= ("TCP connections to port "@ + text::dec(port as nat)) + " time out (filtered or unreachable)"@ + Seq::empty());
        },
        Headline::Ipv6Broken => {
            reveal_strlit("Your IPv6 path is broken (IPv4 is fine)");
            reveal_strlit("IPv6 path is broken");
            lemma_at("Your IPv6 path is broken (IPv4 is fine)"@, "IPv6 path is broken"@, 5);
        },
        Headline::TlsCertExpired => {
            reveal_strlit("The server's TLS certificate has expired. This is not a network problem");
            reveal_strlit("certificate has expired");
            lemma_at("The server's TLS certificate has expired. This is not a network problem"@, "certificate has expired"@, 17);
        },
        Headline::TlsIntercepted => {
            reveal_strlit("Your TLS traffic is most likely being intercepted in transit");
            reveal_strlit("intercepted");
            lemma_at("Your TLS traffic is most likely being intercepted in transit"@, "intercepted"@, 38);
        },
        Headline::TlsCertInvalid => {
            reveal_strlit("The server's TLS certificate is invalid (chain verification failed)");
            reveal_strlit("certificate is invalid");
            lemma_at("The server's TLS certificate is invalid (chain verification failed)"@, "certificate is invalid"@, 17);
        },
        Headline::ProxyInterference => {
            reveal_strlit("A proxy setting is most likely interfering with your traffic");
            reveal_strlit("proxy setting");
            lemma_at("A proxy setting is most likely interfering with your traffic"@, "proxy setting"@, 2);
        },
        Headline::ServerSlow => {
            reveal_strlit("The server is slow to respond. The network is fine");
            reveal_strlit("server is slow");
            lemma_at("The server is slow to respond. The network is fine"@, "server is slow"@, 4);
        },
        Headline::UnstablePath => {
            reveal_strlit("The network path is unstable (high packet loss / jitter)");
            reveal_strlit("path is unstable");
            lemma_at("The network path is unstable (high packet loss / jitter)"@, "path is unstable"@, 12);
        },
        Headline::PmtuBlackhole => {
            reveal_strlit("Large packets silently vanish on the path (a PMTUD black hole)");
            reveal_strlit("black hole");
            lemma_at("Large packets silently vanish on the path (a PMTUD black hole)"@, "black hole"@, 51);
        },
        Headline::Udp443Blocked => {
            reveal_strlit("UDP port 443 is most likely blocked, so HTTP/3 (QUIC) does not work");
            reveal_strlit("UDP port 443");
            lemma_at("UDP port 443 is most likely blocked, so HTTP/3 (QUIC) does not work"@, "UDP port 443"@, 0);
        },
        Headline::NoProblem => {
            reveal_strlit("No problem found. The path to this destination is healthy right now");
            reveal_strlit("No problem found");
            lemma_at("No problem found. The path to this destination is healthy right now"@, "No problem found"@, 0);
        },
    }
}

proof fn lemma_japanese_statement(h: Headline)
    ensures
        text::laws::holds(ruling::headline_text(Lang::Ja, h), key_phrase(Lang::Ja, h)),
{
    match h {
        Headline::NameDoesNotExist { host } => {
            reveal_strlit("」は存在しません。ネットワークのせいではありません");
            reveal_strlit("存在しません");
            lemma_at("」は存在しません。ネットワークのせいではありません"@, "存在しません"@, 2);
            lemma_within("ドメイン「"@ + host@, "」は存在しません。ネットワークのせいではありません"@, Seq::empty(), "存在しません"@);
            assert(ruling::headline_text(Lang::Ja, h) =~= ("ドメイン「"@ + host@) + "」は存在しません。ネットワークのせいではありません"@ + Seq::empty());
        },
        Headline::LocalDnsBroken => {
            reveal_strlit("ローカル DNS リゾルバが機能していません");
            reveal_strlit("機能していません");
            lemma_at("ローカル DNS リゾルバが機能していません"@, "機能していません"@, 14);
        },
        Headline::LocalDnsSlow => {
            reveal_strlit("ローカル DNS リゾルバが遅く、全体の体感を悪化させています");
            reveal_strlit("ローカル DNS リゾルバが遅く");
            lemma_at("ローカル DNS リゾルバが遅く、全体の体感を悪化させています"@, "ローカル DNS リゾルバが遅く"@, 0);
        },
        Headline::OutboundDead => {
            reveal_strlit("外向きの通信が全滅しています。ネットワーク接続自体に問題があります");
            reveal_strlit("外向きの通信が全滅");
            lemma_at("外向きの通信が全滅しています。ネットワーク接続自体に問題があります"@, "外向きの通信が全滅"@, 0);
        },
        Headline::DnsAnswerMismatch => {
            reveal_strlit("ローカル DNS とパブリック DNS で回答が異なり、接続にも失敗しています");
            reveal_strlit("回答が異なり");
            lemma_at("ローカル DNS とパブリック DNS で回答が異なり、接続にも失敗しています"@, "回答が異なり"@, 21);
        },
        Headline::ServerDown { port } => {
            reveal_strlit(" で何も待ち受けていません");
            reveal_strlit("待ち受けていません");
            lemma_at(" で何も待ち受けていません"@, "待ち受けていません"@, 4);
            lemma_within("サーバは生きていますが、ポート "@ + text::dec(port as nat), " で何も待ち受けていません"@, Seq::empty(), "待ち受けていません"@);
            assert(ruling::headline_text(Lang::Ja, h) =~= ("サーバは生きていますが、ポート "@ + text::dec(port as nat)) + " で何も待ち受けていません"@ + Seq::empty());
        },
        Headline::TcpBlocked { port } => {
            reveal_strlit(" への TCP 接続がタイムアウトします (フィルタ/到達不能)");
            reveal_strlit("タイムアウト");
            lemma_at(" への TCP 接続がタイムアウトします (フィルタ/到達不能)"@, "タイムアウト"@, 11);
            lemma_within("ポート "@ + text::dec(port as nat), " への TCP 接続がタイムアウトします (フィルタ/到達不能)"@, Seq::empty(), "タイムアウト"@);
            assert(ruling::headline_text(Lang::Ja, h) =~= ("ポート "@ + text::dec(port as nat)) + " への TCP 接続がタイムアウトします (フィルタ/到達不能)"@ + Seq::empty());
        },
        Headline::Ipv6Broken => {
            reveal_strlit("IPv6 経路が壊れています (IPv4 は正常)");
            reveal_strlit("IPv6 経路が壊れています");
            lemma_at("IPv6 経路が壊れています (IPv4 は正常)"@, "IPv6 経路が壊れています"@, 0);
        },
        Headline::TlsCertExpired => {
            reveal_strlit("サーバの TLS 証明書が期限切れです。ネットワークのせいではありません");
            reveal_strlit("証明書が期限切れ");
            lemma_at("サーバの TLS 証明書が期限切れです。ネットワークのせいではありません"@, "証明書が期限切れ"@, 9);
        },
        Headline::TlsIntercepted => {
            reveal_strlit("TLS 通信が途中で傍受されている可能性が高いです");
            reveal_strlit("傍受");
            lemma_at("TLS 通信が途中で傍受されている可能性が高いです"@, "傍受"@, 10);
        },
        Headline::TlsCertInvalid => {
            reveal_strlit("サーバの TLS 証明書が不正です (チェーン検証失敗)");
            reveal_strlit("証明書が不正");
            lemma_at("サーバの TLS 証明書が不正です (チェーン検証失敗)"@, "証明書が不正"@, 9);
        },
        Headline::ProxyInterference => {
            reveal_strlit("プロキシ設定が通信を妨げている可能性が高いです");
            reveal_strlit("プロキシ設定");
            lemma_at("プロキシ設定が通信を妨げている可能性が高いです"@, "プロキシ設定"@, 0);
        },
        Headline::ServerSlow => {
            reveal_strlit("サーバ側の応答が遅いです。ネットワークは正常です");
            reveal_strlit("サーバ側の応答が遅い");
            lemma_at("サーバ側の応答が遅いです。ネットワークは正常です"@, "サーバ側の応答が遅い"@, 0);
        },
        Headline::UnstablePath => {
            reveal_strlit("ネットワーク経路が不安定です (パケットロス/ジッタ大)");
            reveal_strlit("経路が不安定");
            lemma_at("ネットワーク経路が不安定です (パケットロス/ジッタ大)"@, "経路が不安定"@, 6);
        },
        Headline::PmtuBlackhole => {
            reveal_strlit("経路上で大きなパケットだけが黙って消えています (PMTUD ブラックホール)");
            reveal_strlit("ブラックホール");
            lemma_at("経路上で大きなパケットだけが黙って消えています (PMTUD ブラックホール)"@, "ブラックホール"@, 31);
        },
        Headline::Udp443Blocked => {
            reveal_strlit("UDP 443 がブロックされている可能性が高く、HTTP/3 (QUIC) が使えません");
            reveal_strlit("UDP 443");
            lemma_at("UDP 443 がブロックされている可能性が高く、HTTP/3 (QUIC) が使えません"@, "UDP 443"@, 0);
        },
        Headline::NoProblem => {
            reveal_strlit("問題は見つかりませんでした。少なくとも今、この宛先への経路は健全です");
            reveal_strlit("問題は見つかりませんでした");
            lemma_at("問題は見つかりませんでした。少なくとも今、この宛先への経路は健全です"@, "問題は見つかりませんでした"@, 0);
        },
    }
}

proof fn lemma_english_advice(h: Headline)
    ensures
        text::laws::holds(ruling::next_step_text(Lang::En, h), key_advice(Lang::En, h)),
{
    match h {
        Headline::NameDoesNotExist { .. } => {
            reveal_strlit("Check the hostname for typos. If it should be correct, the domain registration may have lapsed");
            reveal_strlit("typos");
            lemma_at("Check the hostname for typos. If it should be correct, the domain registration may have lapsed"@, "typos"@, 23);
        },
        Headline::LocalDnsBroken => {
            reveal_strlit("Restart your router, or switch your DNS servers to 1.1.1.1 / 8.8.8.8 as a workaround");
            reveal_strlit("Restart your router");
            lemma_at("Restart your router, or switch your DNS servers to 1.1.1.1 / 8.8.8.8 as a workaround"@, "Restart your router"@, 0);
        },
        Headline::LocalDnsSlow => {
            reveal_strlit("Switching your DNS servers to 1.1.1.1 or 8.8.8.8 should noticeably help");
            reveal_strlit("should noticeably help");
            lemma_at("Switching your DNS servers to 1.1.1.1 or 8.8.8.8 should noticeably help"@, "should noticeably help"@, 49);
        },
        Headline::OutboundDead => {
            reveal_strlit("Check your cable/Wi-Fi and router. Other sites should be failing too");
            reveal_strlit("cable/Wi-Fi");
            lemma_at("Check your cable/Wi-Fi and router. Other sites should be failing too"@, "cable/Wi-Fi"@, 11);
        },
        Headline::DnsAnswerMismatch => {
            reveal_strlit("On a corporate network, ask your administrator. At home, check your router's DNS settings and any security software");
            reveal_strlit("router's DNS settings");
            lemma_at("On a corporate network, ask your administrator. At home, check your router's DNS settings and any security software"@, "router's DNS settings"@, 68);
        },
        Headline::ServerDown { .. } => {
            reveal_strlit("Double-check the port number. If it is correct, the service on the server is down");
            reveal_strlit("the service on the server is down");
            lemma_at("Double-check the port number. If it is correct, the service on the server is down"@, "the service on the server is down"@, 48);
        },
        Headline::TcpBlocked { .. } => {
            reveal_strlit("Try from another network (e.g. phone tethering) to isolate it. If it works there, a filter on this network is the culprit");
            reveal_strlit("another network");
            lemma_at("Try from another network (e.g. phone tethering) to isolate it. If it works there, a filter on this network is the culprit"@, "another network"@, 9);
        },
        Headline::Ipv6Broken => {
            reveal_strlit("Check the IPv6 settings on your router and ISP line. As a stopgap, you can disable IPv6 in the OS");
            reveal_strlit("IPv6 settings");
            lemma_at("Check the IPv6 settings on your router and ISP line. As a stopgap, you can disable IPv6 in the OS"@, "IPv6 settings"@, 10);
        },
        Headline::TlsCertExpired => {
            reveal_strlit("Ask the server administrator to renew the certificate — or renew it yourself if it is your site");
            reveal_strlit("renew the certificate");
            lemma_at("Ask the server administrator to renew the certificate — or renew it yourself if it is your site"@, "renew the certificate"@, 32);
        },
        Headline::TlsIntercepted => {
            reveal_strlit("On a corporate network this means SSL inspection is on. Ask your administrator, or install the corporate CA certificate");
            reveal_strlit("SSL inspection");
            lemma_at("On a corporate network this means SSL inspection is on. Ask your administrator, or install the corporate CA certificate"@, "SSL inspection"@, 34);
        },
        Headline::TlsCertInvalid => {
            reveal_strlit("Check that the URL is correct. If it is, the server's certificate is most likely misconfigured");
            reveal_strlit("misconfigured");
            lemma_at("Check that the URL is correct. If it is, the server's certificate is most likely misconfigured"@, "misconfigured"@, 81);
        },
        Headline::ProxyInterference => {
            reveal_strlit("Temporarily `unset http_proxy https_proxy` and retry. If that fixes it, the proxy setting is the culprit");
            reveal_strlit("unset http_proxy https_proxy");
            lemma_at("Temporarily `unset http_proxy https_proxy` and retry. If that fixes it, the proxy setting is the culprit"@, "unset http_proxy https_proxy"@, 13);
        },
        Headline::ServerSlow => {
            reveal_strlit("Tweaking your line or router will not help. Contact the server administrator, or retry later");
            reveal_strlit("will not help");
            lemma_at("Tweaking your line or router will not help. Contact the server administrator, or retry later"@, "will not help"@, 29);
        },
        Headline::UnstablePath => {
            reveal_strlit("On Wi-Fi, try a wired connection or the 5 GHz band. If already wired, the problem may be on your ISP's side");
            reveal_strlit("wired connection");
            lemma_at("On Wi-Fi, try a wired connection or the 5 GHz band. If already wired, the problem may be on your ISP's side"@, "wired connection"@, 16);
        },
        Headline::PmtuBlackhole => {
            reveal_strlit("Check the MTU of your VPN or tunnel, or enable MSS clamping on the router");
            reveal_strlit("MSS clamping");
            lemma_at("Check the MTU of your VPN or tunnel, or enable MSS clamping on the router"@, "MSS clamping"@, 47);
        },
        Headline::Udp443Blocked => {
            reveal_strlit("Ask whoever runs the firewall to allow UDP 443. Until then, browsers fall back to TCP");
            reveal_strlit("allow UDP 443");
            lemma_at("Ask whoever runs the firewall to allow UDP 443. Until then, browsers fall back to TCP"@, "allow UDP 443"@, 33);
        },
        Headline::NoProblem => {
            reveal_strlit("If the problem is intermittent, run this again while the symptom is happening");
            reveal_strlit("intermittent");
            lemma_at("If the problem is intermittent, run this again while the symptom is happening"@, "intermittent"@, 18);
        },
    }
}

proof fn lemma_japanese_advice(h: Headline)
    ensures
        text::laws::holds(ruling::next_step_text(Lang::Ja, h), key_advice(Lang::Ja, h)),
{
    match h {
        Headline::NameDoesNotExist { .. } => {
            reveal_strlit("ホスト名のタイプミスを確認してください。正しいはずなら、ドメインの有効期限切れの可能性があります");
            reveal_strlit("タイプミス");
            lemma_at("ホスト名のタイプミスを確認してください。正しいはずなら、ドメインの有効期限切れの可能性があります"@, "タイプミス"@, 5);
        },
        Headline::LocalDnsBroken => {
            reveal_strlit("ルータの再起動、または DNS サーバを 1.1.1.1 / 8.8.8.8 に変更して回避できます");
            reveal_strlit("ルータの再起動");
            lemma_at("ルータの再起動、または DNS サーバを 1.1.1.1 / 8.8.8.8 に変更して回避できます"@, "ルータの再起動"@, 0);
        },
        Headline::LocalDnsSlow => {
            reveal_strlit("DNS サーバを 1.1.1.1 または 8.8.8.8 に変更すると改善が見込めます");
            reveal_strlit("改善が見込めます");
            lemma_at("DNS サーバを 1.1.1.1 または 8.8.8.8 に変更すると改善が見込めます"@, "改善が見込めます"@, 35);
        },
        Headline::OutboundDead => {
            reveal_strlit("ケーブル/Wi-Fi 接続とルータの状態を確認してください。他のサイトも開けないはずです");
            reveal_strlit("ケーブル/Wi-Fi");
            lemma_at("ケーブル/Wi-Fi 接続とルータの状態を確認してください。他のサイトも開けないはずです"@, "ケーブル/Wi-Fi"@, 0);
        },
        Headline::DnsAnswerMismatch => {
            reveal_strlit("社内ネットワークなら管理者に確認を。家庭ならルータの DNS 設定とセキュリティソフトを確認してください");
            reveal_strlit("ルータの DNS 設定");
            lemma_at("社内ネットワークなら管理者に確認を。家庭ならルータの DNS 設定とセキュリティソフトを確認してください"@, "ルータの DNS 設定"@, 22);
        },
        Headline::ServerDown { .. } => {
            reveal_strlit("ポート番号が正しいか確認してください。正しければサーバ側のサービス停止です");
            reveal_strlit("サービス停止");
            lemma_at("ポート番号が正しいか確認してください。正しければサーバ側のサービス停止です"@, "サービス停止"@, 29);
        },
        Headline::TcpBlocked { .. } => {
            reveal_strlit("別ネットワーク (スマホのテザリング等) から試して切り分けてください。そちらで繋がるなら今のネットワークのフィルタが原因です");
            reveal_strlit("別ネットワーク");
            lemma_at("別ネットワーク (スマホのテザリング等) から試して切り分けてください。そちらで繋がるなら今のネットワークのフィルタが原因です"@, "別ネットワーク"@, 0);
        },
        Headline::Ipv6Broken => {
            reveal_strlit("ルータ/回線の IPv6 設定を確認してください。応急処置として OS で IPv6 を無効化する手もあります");
            reveal_strlit("IPv6 設定");
            lemma_at("ルータ/回線の IPv6 設定を確認してください。応急処置として OS で IPv6 を無効化する手もあります"@, "IPv6 設定"@, 8);
        },
        Headline::TlsCertExpired => {
            reveal_strlit("サーバ管理者に証明書の更新を依頼してください。自分のサイトなら証明書を更新してください");
            reveal_strlit("証明書の更新");
            lemma_at("サーバ管理者に証明書の更新を依頼してください。自分のサイトなら証明書を更新してください"@, "証明書の更新"@, 7);
        },
        Headline::TlsIntercepted => {
            reveal_strlit("社内ネットワークなら SSL インスペクションが有効です。管理者に確認するか、社の CA 証明書を導入してください");
            reveal_strlit("SSL インスペクション");
            lemma_at("社内ネットワークなら SSL インスペクションが有効です。管理者に確認するか、社の CA 証明書を導入してください"@, "SSL インスペクション"@, 11);
        },
        Headline::TlsCertInvalid => {
            reveal_strlit("URL が正しいか確認してください。正しければサーバ側の証明書設定ミスの可能性が高いです");
            reveal_strlit("証明書設定ミス");
            lemma_at("URL が正しいか確認してください。正しければサーバ側の証明書設定ミスの可能性が高いです"@, "証明書設定ミス"@, 28);
        },
        Headline::ProxyInterference => {
            reveal_strlit("unset http_proxy https_proxy で一時解除して再試行してください。直るならプロキシ設定が犯人です");
            reveal_strlit("unset http_proxy https_proxy");
            lemma_at("unset http_proxy https_proxy で一時解除して再試行してください。直るならプロキシ設定が犯人です"@, "unset http_proxy https_proxy"@, 0);
        },
        Headline::ServerSlow => {
            reveal_strlit("回線やルータをいじっても改善しません。サーバ管理者への連絡か、時間を置いての再試行を");
            reveal_strlit("改善しません");
            lemma_at("回線やルータをいじっても改善しません。サーバ管理者への連絡か、時間を置いての再試行を"@, "改善しません"@, 12);
        },
        Headline::UnstablePath => {
            reveal_strlit("Wi-Fi なら有線接続か 5GHz 帯への変更を試してください。有線なら回線事業者側の問題の可能性があります");
            reveal_strlit("有線接続");
            lemma_at("Wi-Fi なら有線接続か 5GHz 帯への変更を試してください。有線なら回線事業者側の問題の可能性があります"@, "有線接続"@, 8);
        },
        Headline::PmtuBlackhole => {
            reveal_strlit("VPN/トンネルの MTU を確認するか、ルータで MSS clamp を有効にしてください");
            reveal_strlit("MSS clamp");
            lemma_at("VPN/トンネルの MTU を確認するか、ルータで MSS clamp を有効にしてください"@, "MSS clamp"@, 26);
        },
        Headline::Udp443Blocked => {
            reveal_strlit("ファイアウォールの管理者に UDP 443 の許可を依頼してください。それまではブラウザが TCP にフォールバックします");
            reveal_strlit("UDP 443 の許可");
            lemma_at("ファイアウォールの管理者に UDP 443 の許可を依頼してください。それまではブラウザが TCP にフォールバックします"@, "UDP 443 の許可"@, 14);
        },
        Headline::NoProblem => {
            reveal_strlit("問題が断続的なら、症状が出ている最中にもう一度実行してください");
            reveal_strlit("断続的");
            lemma_at("問題が断続的なら、症状が出ている最中にもう一度実行してください"@, "断続的"@, 3);
        },
    }
}

/// The statement of a culprit says what is wrong, and its next step what to do about it, in
/// either language.
pub proof fn law_statements_and_advice(lang: Lang, h: Headline)
    ensures
        text::laws::holds(ruling::headline_text(lang, h), key_phrase(lang, h)),
        text::laws::holds(ruling::next_step_text(lang, h), key_advice(lang, h)),
{
    match lang {
        Lang::En => {
            lemma_english_statement(h);
            lemma_english_advice(h);
        },
        Lang::Ja => {
            lemma_japanese_statement(h);
            lemma_japanese_advice(h);
        },
    }
}

} // verus!
