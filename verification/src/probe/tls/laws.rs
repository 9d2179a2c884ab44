//! What the results of a handshake promise.

use crate::i18n::Lang;
use crate::probe::tls;
use crate::probe::tls::{CertFacts, HandshakeFault, Seen};
use crate::report::TlsReport;
use crate::text;
use crate::text::laws;
use vstd::prelude::*;

verus! {

// ── Middleboxes ─────────────────────────────────────────────────────────

/// A word by which an intercepting product is known.
pub open spec fn tells_interception(w: Seq<char>) -> bool {
    ||| w == "firewall"@
    ||| w == "zscaler"@
    ||| w == "fortigate"@
    ||| w == "fortinet"@
    ||| w == "bluecoat"@
    ||| w == "blue coat"@
    ||| w == "palo alto"@
    ||| w == "netskope"@
    ||| w == "sophos"@
    ||| w == "watchguard"@
    ||| w == "sonicwall"@
    ||| w == "barracuda"@
    ||| w == "untangle"@
    ||| w == "squid"@
    ||| w == "mitmproxy"@
    ||| w == "ssl inspection"@
    ||| w == "proxy"@
}

proof fn lemma_lower_words()
    ensures
        forall|w: Seq<char>, i: int|
            #![trigger tells_interception(w), w[i]]
            tells_interception(w) && 0 <= i < w.len() ==> !('A' <= w[i] <= 'Z'),
{
    reveal_strlit("firewall");
    reveal_strlit("zscaler");
    reveal_strlit("fortigate");
    reveal_strlit("fortinet");
    reveal_strlit("bluecoat");
    reveal_strlit("blue coat");
    reveal_strlit("palo alto");
    reveal_strlit("netskope");
    reveal_strlit("sophos");
    reveal_strlit("watchguard");
    reveal_strlit("sonicwall");
    reveal_strlit("barracuda");
    reveal_strlit("untangle");
    reveal_strlit("squid");
    reveal_strlit("mitmproxy");
    reveal_strlit("ssl inspection");
    reveal_strlit("proxy");
}

proof fn lemma_keywords(w: Seq<char>) -> (k: int)
    requires
        tells_interception(w),
    ensures
        0 <= k < 17,
        tls::middlebox_keywords()[k] == w,
{
    let all = tls::middlebox_keywords();
    if w == all[0] {
        0
    } else if w == all[1] {
        1
    } else if w == all[2] {
        2
    } else if w == all[3] {
        3
    } else if w == all[4] {
        4
    } else if w == all[5] {
        5
    } else if w == all[6] {
        6
    } else if w == all[7] {
        7
    } else if w == all[8] {
        8
    } else if w == all[9] {
        9
    } else if w == all[10] {
        10
    } else if w == all[11] {
        11
    } else if w == all[12] {
        12
    } else if w == all[13] {
        13
    } else if w == all[14] {
        14
    } else if w == all[15] {
        15
    } else {
        16
    }
}

/// An issuer looks like a middlebox exactly where one of the words stands somewhere in
/// its name, in upper or lower case.
pub proof fn law_middleboxes(issuer: Seq<char>)
    ensures
        tls::names_middlebox(issuer) <==> exists|w: Seq<char>| #[trigger]
            tells_interception(w) && laws::holds_in_any_case(issuer, w),
{
    let all = tls::middlebox_keywords();
    lemma_lower_words();
    if tls::names_middlebox(issuer) {
        let k = choose|i: int|
            0 <= i < all.len() && text::contains(text::lowered(issuer), #[trigger] all[i]);
        let w = all[k];
        assert(all.len() == 17);
        assert(tells_interception(w));
        laws::law_search_in_any_case(issuer, w);
    }
    if exists|w: Seq<char>| #[trigger]
        tells_interception(w) && laws::holds_in_any_case(issuer, w) {
        let w = choose|w: Seq<char>| #[trigger]
            tells_interception(w) && laws::holds_in_any_case(issuer, w);
        let k = lemma_keywords(w);
        laws::law_search_in_any_case(issuer, w);
        assert(text::contains(text::lowered(issuer), all[k]));
    }
}

// ── The certificate ─────────────────────────────────────────────────────

/// The days that are left are full days of 86400 seconds: no more of them fit between
/// the two times. A certificate has expired when its end lies before now.
pub proof fn law_days_until_expiry(f: CertFacts, issuer: Seq<char>, not_after: i64, now: i64)
    requires
        tls::facts_are(f, Some((issuer, not_after)), now),
    ensures
        f.issuer is Some && f.issuer->0@ == issuer,
        f.days is Some,
        not_after >= now ==> f.days->0 * 86_400 <= not_after - now < (f.days->0 + 1) * 86_400,
        not_after <= now ==> (f.days->0 - 1) * 86_400 < not_after - now <= f.days->0 * 86_400,
        f.expired <==> now > not_after,
{
    let gap = if not_after >= now {
        not_after - now
    } else {
        now - not_after
    };
    assert(0 <= gap / 86_400 <= 0xffff_ffff_ffff_ffffint / 86_400);
}

/// Bytes that are no certificate say nothing.
pub proof fn law_no_certificate(f: CertFacts, now: i64)
    requires
        tls::facts_are(f, None, now),
    ensures
        f.issuer is None,
        f.days is None,
        !f.expired,
{
}

// ── The stage ───────────────────────────────────────────────────────────

/// A handshake that verified the chain tells what was seen, and has no error.
pub proof fn law_verified_handshake(r: TlsReport, s: Seen)
    requires
        tls::verified_shows(r, s),
    ensures
        r.verified,
        r.error is None,
        r.hostname_matches == Some(true),
        !r.interception_suspected,
        r.version == s.version,
        r.handshake_ms == Some(s.handshake_ms),
        s.cert is Some ==> r.presented_issuer == s.cert->0.issuer && r.days_until_expiry
            == s.cert->0.days && r.cert_expired == s.cert->0.expired,
        s.cert is None ==> r.presented_issuer is None && r.days_until_expiry is None
            && !r.cert_expired,
{
}

proof fn lemma_phrases()
    ensures
        forall|i: int|
            0 <= i < "expired"@.len() ==> !('A' <= #[trigger] "expired"@[i] <= 'Z'),
        forall|i: int|
            0 <= i < "notvalidforname"@.len() ==> !('A' <= #[trigger] "notvalidforname"@[i]
                <= 'Z'),
        forall|i: int|
            0 <= i < "not valid for name"@.len() ==> !('A' <= #[trigger] "not valid for name"@[i]
                <= 'Z'),
{
    reveal_strlit("expired");
    reveal_strlit("notvalidforname");
    reveal_strlit("not valid for name");
}

/// A handshake that failed is not verified and keeps the error. The name is known to be
/// wrong where the error says so. The certificate has expired where the error says so
/// or the one that was seen at the second attempt has. Interception is suspected where
/// the issuer seen there is that of a middlebox.
pub proof fn law_failed_handshake(r: TlsReport, error: String, retry: Option<Seen>)
    requires
        tls::failed_shows(r, error, retry),
    ensures
        !r.verified,
        r.error == Some(error),
        ({
            let wrong = laws::holds_in_any_case(error@, "notvalidforname"@)
                || laws::holds_in_any_case(error@, "not valid for name"@);
            &&& wrong ==> r.hostname_matches == Some(false)
            &&& !wrong ==> r.hostname_matches is None
        }),
        ({
            let said = laws::holds_in_any_case(error@, "expired"@);
            let seen = retry is Some && retry->0.cert is Some && retry->0.cert->0.expired;
            r.cert_expired <==> said || seen
        }),
        r.interception_suspected <==> r.presented_issuer is Some && exists|w: Seq<char>| #[trigger]
            tells_interception(w) && laws::holds_in_any_case(r.presented_issuer->0@, w),
        retry is Some ==> r.version == retry->0.version && r.handshake_ms == Some(
            retry->0.handshake_ms,
        ),
        retry is Some && retry->0.cert is Some ==> r.presented_issuer == retry->0.cert->0.issuer
            && r.days_until_expiry == retry->0.cert->0.days,
        retry is None ==> r.version is None && r.handshake_ms is None,
        retry is None || retry->0.cert is None ==> r.presented_issuer is None
            && r.days_until_expiry is None,
{
    lemma_phrases();
    laws::law_search_in_any_case(error@, "expired"@);
    laws::law_search_in_any_case(error@, "notvalidforname"@);
    laws::law_search_in_any_case(error@, "not valid for name"@);
    if r.presented_issuer is Some {
        law_middleboxes(r.presented_issuer->0@);
    }
}

/// The two current versions have their usual names, and no other version has one of
/// them.
pub proof fn law_version_names(code: u16)
    ensures
        tls::version_text(code) == "TLS 1.3"@ <==> code == 772,
        tls::version_text(code) == "TLS 1.2"@ <==> code == 771,
{
    reveal_strlit("TLS 1.2");
    reveal_strlit("TLS 1.3");
    reveal_strlit("SSLv2");
    reveal_strlit("SSLv3");
    reveal_strlit("TLSv1_0");
    reveal_strlit("TLSv1_1");
    reveal_strlit("TLSv1_2");
    reveal_strlit("TLSv1_3");
    reveal_strlit("DTLSv1_0");
    reveal_strlit("DTLSv1_2");
    reveal_strlit("DTLSv1_3");
    reveal_strlit("ProtocolVersion(0x");
    reveal_strlit(")");
    assert("TLS 1.2"@[6] != "TLS 1.3"@[6]);
    assert("TLS 1.2"@[3] == ' ' && "TLS 1.3"@[3] == ' ');
    assert(tls::raw_version(code).len() < 7 || tls::raw_version(code)[3] != ' ');
}

/// The text of a failure holds the reason where one is given.
pub proof fn law_reasons_are_told(lang: Lang, e: String)
    ensures
        tls::fault_text(lang, HandshakeFault::BadName(e)) == e@,
        tls::fault_text(lang, HandshakeFault::Failed(e)) == e@,
        laws::holds(tls::fault_text(lang, HandshakeFault::ConnectFailed(e)), e@),
        tls::fault_text(lang, HandshakeFault::ConnectTimedOut) != tls::fault_text(
            lang,
            HandshakeFault::TimedOut,
        ),
{
    let t = tls::fault_text(lang, HandshakeFault::ConnectFailed(e));
    assert(t + Seq::<char>::empty() =~= t);
    assert(laws::is_made_of(t, "TCP connect failed: "@, e@, Seq::empty()) || laws::is_made_of(
        t,
        "TCP 接続失敗: "@,
        e@,
        Seq::empty(),
    ));
    reveal_strlit("TCP connect timed out");
    reveal_strlit("TLS handshake timed out");
    reveal_strlit("TCP 接続タイムアウト");
    reveal_strlit("TLS ハンドシェイクタイムアウト");
    assert("TCP connect timed out"@[1] != "TLS handshake timed out"@[1]);
    assert("TCP 接続タイムアウト"@[1] != "TLS ハンドシェイクタイムアウト"@[1]);
}

} // verus!
