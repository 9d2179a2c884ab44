//! TLS: what a handshake, or the failure of one, says about the server and the way
//! to it.

pub mod laws;

use crate::addr;
use crate::i18n;
use crate::i18n::Lang;
use crate::measure::Millis;
use crate::report::TlsReport;
use crate::text;
use vstd::prelude::*;
use x509_parser::prelude::FromDer;

verus! {

// ── Middleboxes ─────────────────────────────────────────────────────────

/// Words that the issuer names of products that intercept TLS often hold.
pub open spec fn middlebox_keywords() -> Seq<Seq<char>> {
    seq![
        "firewall"@,
        "zscaler"@,
        "fortigate"@,
        "fortinet"@,
        "bluecoat"@,
        "blue coat"@,
        "palo alto"@,
        "netskope"@,
        "sophos"@,
        "watchguard"@,
        "sonicwall"@,
        "barracuda"@,
        "untangle"@,
        "squid"@,
        "mitmproxy"@,
        "ssl inspection"@,
        "proxy"@,
    ]
}

/// The issuer name holds one of the words, in any case.
pub open spec fn names_middlebox(issuer: Seq<char>) -> bool {
    exists|i: int|
        0 <= i < middlebox_keywords().len() && text::contains(
            text::lowered(issuer),
            #[trigger] middlebox_keywords()[i],
        )
}

/// Whether an issuer name looks like that of a middlebox.
pub fn looks_like_middlebox(issuer: &str) -> (r: bool)
    ensures
        r == names_middlebox(issuer@),
{
    let keywords: Vec<&'static str> = vec![
        "firewall",
        "zscaler",
        "fortigate",
        "fortinet",
        "bluecoat",
        "blue coat",
        "palo alto",
        "netskope",
        "sophos",
        "watchguard",
        "sonicwall",
        "barracuda",
        "untangle",
        "squid",
        "mitmproxy",
        "ssl inspection",
        "proxy",
    ];
    let chars = text::chars_of(issuer);
    let lower = text::to_lower(chars.as_slice());
    let ghost all = middlebox_keywords();
    let mut i: usize = 0;
    while i < keywords.len()
        invariant
            i <= keywords@.len(),
            all == middlebox_keywords(),
            all.len() == keywords@.len(),
            lower@ == text::lowered(issuer@),
            forall|j: int| 0 <= j < keywords@.len() ==> (#[trigger] keywords@[j])@ == all[j],
            forall|j: int|
                0 <= j < i ==> !text::contains(text::lowered(issuer@), #[trigger] all[j]),
        decreases keywords@.len() - i,
    {
        if text::has(lower.as_slice(), keywords[i]) {
            assert(text::contains(text::lowered(issuer@), all[i as int]));
            return true;
        }
        i = i + 1;
    }
    false
}

// ── The certificate ─────────────────────────────────────────────────────

/// Issuer name and end of validity, in seconds since the Unix epoch, of a
/// certificate in DER form, as `x509_parser` reads it; nothing for bytes that are
/// none.
pub uninterp spec fn cert_fields(der: Seq<u8>) -> Option<(Seq<char>, i64)>;

/// Calls `x509_parser`'s `X509Certificate::from_der` and gives the issuer in text and
/// the timestamp of the end of validity. The result is a function of the bytes and
/// has a name.
#[verifier::external_body]
fn read_cert(der: &[u8]) -> (r: Option<(String, i64)>)
    ensures
        match r {
            Some((issuer, not_after)) => cert_fields(der@) == Some((issuer@, not_after)),
            None => cert_fields(der@) is None,
        },
{
    match x509_parser::certificate::X509Certificate::from_der(der) {
        Ok((_, cert)) => {
            let not_after = cert.validity().not_after.timestamp();
            Some((cert.issuer().to_string(), not_after))
        },
        Err(_) => None,
    }
}

/// What a certificate says.
#[derive(Debug)]
pub struct CertFacts {
    pub issuer: Option<String>,
    /// Days until it expires; negative when it has expired.
    pub days: Option<i64>,
    pub expired: bool,
}

/// The full days from `now` to `then`, rounded towards zero.
pub open spec fn days_between(now: i64, then: i64) -> i64 {
    if then >= now {
        ((then - now) / 86_400) as i64
    } else {
        (-((now - then) / 86_400)) as i64
    }
}

/// The facts of a certificate with these fields, at the time `now`.
pub open spec fn facts_are(f: CertFacts, fields: Option<(Seq<char>, i64)>, now: i64) -> bool {
    match fields {
        Some((issuer, not_after)) => {
            &&& f.issuer is Some
            &&& f.issuer->0@ == issuer
            &&& f.days == Some(days_between(now, not_after))
            &&& f.expired == (not_after < now)
        },
        None => f.issuer is None && f.days is None && !f.expired,
    }
}

/// Tells the facts of a certificate with these fields, at the time `now`, in seconds
/// since the Unix epoch.
pub fn weigh_cert(fields: Option<(String, i64)>, now: i64) -> (f: CertFacts)
    ensures
        facts_are(
            f,
            match fields {
                Some((issuer, not_after)) => Some((issuer@, not_after)),
                None => None,
            },
            now,
        ),
{
    match fields {
        Some((issuer, not_after)) => {
            let days: i64 = if not_after >= now {
                ((not_after as i128 - now as i128) / 86_400) as i64
            } else {
                let ago: i64 = ((now as i128 - not_after as i128) / 86_400) as i64;
                -ago
            };
            CertFacts { issuer: Some(issuer), days: Some(days), expired: not_after < now }
        },
        None => CertFacts { issuer: None, days: None, expired: false },
    }
}

/// Tells the facts of a certificate in DER form, at the time `now`, in seconds since
/// the Unix epoch.
pub fn inspect_cert(der: &[u8], now: i64) -> (f: CertFacts)
    ensures
        facts_are(f, cert_fields(der@), now),
{
    weigh_cert(read_cert(der), now)
}

// ── The protocol version ────────────────────────────────────────────────

/// How `rustls` writes a protocol version.
pub open spec fn raw_version(code: u16) -> Seq<char> {
    if code == 0x0002 {
        "SSLv2"@
    } else if code == 0x0300 {
        "SSLv3"@
    } else if code == 0x0301 {
        "TLSv1_0"@
    } else if code == 0x0302 {
        "TLSv1_1"@
    } else if code == 0x0303 {
        "TLSv1_2"@
    } else if code == 0x0304 {
        "TLSv1_3"@
    } else if code == 0xFEFF {
        "DTLSv1_0"@
    } else if code == 0xFEFD {
        "DTLSv1_2"@
    } else if code == 0xFEFC {
        "DTLSv1_3"@
    } else {
        "ProtocolVersion(0x"@ + addr::hex(code as nat) + ")"@
    }
}

/// Calls the `Debug` implementation of `rustls::ProtocolVersion`: the name of a known
/// version, the number of another one.
#[verifier::external_body]
fn debug_version(code: u16) -> (s: String)
    ensures
        s@ == raw_version(code),
{
    format!("{:?}", rustls::ProtocolVersion::from(code))
}

/// The name of a protocol version.
pub open spec fn version_text(code: u16) -> Seq<char> {
    if code == 0x0303 {
        "TLS 1.2"@
    } else if code == 0x0304 {
        "TLS 1.3"@
    } else {
        raw_version(code)
    }
}

/// Names a protocol version, given its number on the wire.
pub fn version_name(code: u16) -> (s: String)
    ensures
        s@ == version_text(code),
{
    if code == 0x0303 {
        "TLS 1.2".to_owned()
    } else if code == 0x0304 {
        "TLS 1.3".to_owned()
    } else {
        debug_version(code)
    }
}

// ── The stage ───────────────────────────────────────────────────────────

/// A handshake that succeeded.
#[derive(Debug)]
pub struct Handshake {
    /// The number of the protocol version.
    pub version: Option<u16>,
    /// The first certificate that was presented, in DER form.
    pub cert: Option<Vec<u8>>,
    pub handshake_ms: Millis,
}

/// Why a handshake failed.
#[derive(Debug)]
pub enum HandshakeFault {
    /// The host name cannot be used.
    BadName(String),
    ConnectTimedOut,
    ConnectFailed(String),
    TimedOut,
    Failed(String),
}

pub open spec fn fault_text(lang: Lang, fault: HandshakeFault) -> Seq<char> {
    match fault {
        HandshakeFault::BadName(e) => e@,
        HandshakeFault::ConnectTimedOut => i18n::probe_tcp_connect_timeout_text(lang),
        HandshakeFault::ConnectFailed(e) => i18n::probe_tcp_connect_failed_text(lang, e@),
        HandshakeFault::TimedOut => i18n::probe_tls_handshake_timeout_text(lang),
        HandshakeFault::Failed(e) => e@,
    }
}

/// Puts the failure of a handshake into words.
pub fn fault_words(lang: Lang, fault: HandshakeFault) -> (s: String)
    ensures
        s@ == fault_text(lang, fault),
{
    match fault {
        HandshakeFault::BadName(e) => e,
        HandshakeFault::ConnectTimedOut => i18n::probe_tcp_connect_timeout(lang),
        HandshakeFault::ConnectFailed(e) => i18n::probe_tcp_connect_failed(lang, e.as_str()),
        HandshakeFault::TimedOut => i18n::probe_tls_handshake_timeout(lang),
        HandshakeFault::Failed(e) => e,
    }
}

/// What was seen in a handshake.
#[derive(Debug)]
pub struct Seen {
    pub version: Option<String>,
    pub handshake_ms: Millis,
    pub cert: Option<CertFacts>,
}

/// This was seen in the handshake.
pub open spec fn seen_in(s: Seen, h: Handshake, now: i64) -> bool {
    &&& s.handshake_ms == h.handshake_ms
    &&& match h.version {
        Some(code) => s.version is Some && s.version->0@ == version_text(code),
        None => s.version is None,
    }
    &&& match h.cert {
        Some(der) => s.cert is Some && facts_are(s.cert->0, cert_fields(der@), now),
        None => s.cert is None,
    }
}

/// Looks at a handshake, at the time `now`.
pub fn examine(h: Handshake, now: i64) -> (s: Seen)
    ensures
        seen_in(s, h, now),
{
    let version = match h.version {
        Some(code) => Some(version_name(code)),
        None => None,
    };
    let cert = match h.cert {
        Some(der) => Some(inspect_cert(der.as_slice(), now)),
        None => None,
    };
    Seen { version, handshake_ms: h.handshake_ms, cert }
}

/// The result of a handshake that verified the certificate chain.
pub open spec fn verified_shows(r: TlsReport, s: Seen) -> bool {
    &&& r.verified
    &&& r.hostname_matches == Some(true)
    &&& r.version == s.version
    &&& r.handshake_ms == Some(s.handshake_ms)
    &&& r.error is None
    &&& !r.interception_suspected
    &&& match s.cert {
        Some(c) => r.presented_issuer == c.issuer && r.days_until_expiry == c.days
            && r.cert_expired == c.expired,
        None => r.presented_issuer is None && r.days_until_expiry is None && !r.cert_expired,
    }
}

/// Makes the result of a handshake that verified the certificate chain.
pub fn verified_report(s: Seen) -> (r: TlsReport)
    ensures
        verified_shows(r, s),
{
    let (presented_issuer, days_until_expiry, cert_expired) = match s.cert {
        Some(c) => (c.issuer, c.days, c.expired),
        None => (None, None, false),
    };
    TlsReport {
        verified: true,
        version: s.version,
        days_until_expiry,
        hostname_matches: Some(true),
        cert_expired,
        presented_issuer,
        interception_suspected: false,
        handshake_ms: Some(s.handshake_ms),
        error: None,
    }
}

/// The error says that the certificate has expired.
pub open spec fn says_expired(error: Seq<char>) -> bool {
    text::contains(text::lowered(error), "expired"@)
}

/// The error says that the certificate is for another name.
pub open spec fn says_wrong_name(error: Seq<char>) -> bool {
    ||| text::contains(text::lowered(error), "notvalidforname"@)
    ||| text::contains(text::lowered(error), "not valid for name"@)
}

/// The result of a handshake that failed with that error, and of the second one,
/// without verification, where that one succeeded.
pub open spec fn failed_shows(r: TlsReport, error: String, retry: Option<Seen>) -> bool {
    &&& !r.verified
    &&& r.error == Some(error)
    &&& r.hostname_matches == if says_wrong_name(error@) {
        Some(false)
    } else {
        None
    }
    &&& match retry {
        Some(s) => r.version == s.version && r.handshake_ms == Some(s.handshake_ms),
        None => r.version is None && r.handshake_ms is None,
    }
    &&& match retry {
        Some(Seen { cert: Some(c), .. }) => {
            &&& r.presented_issuer == c.issuer
            &&& r.days_until_expiry == c.days
            &&& r.cert_expired == (says_expired(error@) || c.expired)
            &&& r.interception_suspected == (c.issuer is Some && names_middlebox(c.issuer->0@))
        },
        _ => {
            &&& r.presented_issuer is None
            &&& r.days_until_expiry is None
            &&& r.cert_expired == says_expired(error@)
            &&& !r.interception_suspected
        },
    }
}

/// Makes the result of a handshake that failed.
pub fn failed_report(error: String, retry: Option<Seen>) -> (r: TlsReport)
    ensures
        failed_shows(r, error, retry),
{
    let chars = text::chars_of(error.as_str());
    let lower = text::to_lower(chars.as_slice());
    let expired = text::has(lower.as_slice(), "expired");
    let wrong_name = text::has(lower.as_slice(), "notvalidforname") || text::has(
        lower.as_slice(),
        "not valid for name",
    );
    let mut r = TlsReport::default();
    r.error = Some(error);
    r.cert_expired = expired;
    if wrong_name {
        r.hostname_matches = Some(false);
    }
    if let Some(s) = retry {
        r.version = s.version;
        r.handshake_ms = Some(s.handshake_ms);
        if let Some(c) = s.cert {
            if let Some(issuer) = &c.issuer {
                r.interception_suspected = looks_like_middlebox(issuer.as_str());
            }
            r.presented_issuer = c.issuer;
            r.days_until_expiry = c.days;
            if c.expired {
                r.cert_expired = true;
            }
        }
    }
    r
}

// ── What holds of every result ──────────────────────────────────────────

/// The days that are left are never positive for a certificate that has expired,
/// and never negative for one that has not.
pub proof fn law_days_agree_with_expiry(f: CertFacts, fields: Option<(Seq<char>, i64)>, now: i64)
    requires
        facts_are(f, fields, now),
        f.days is Some,
    ensures
        f.expired ==> f.days->0 <= 0,
        !f.expired ==> f.days->0 >= 0,
{
}

/// Interception is suspected only where the chain could not be verified.
pub proof fn law_verified_means_no_interception(r: TlsReport, s: Seen)
    requires
        verified_shows(r, s),
    ensures
        r.verified && !r.interception_suspected && r.error is None,
{
}

} // verus!
