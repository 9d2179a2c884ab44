//! The target of a diagnosis: a URL or `host[:port]`.

pub mod laws;

use crate::addr;
use crate::report::TargetInfo;
use crate::text;
use crate::ParseError;
use vstd::prelude::*;
use vstd::slice::slice_subrange;

verus! {

/// The contents of a [`ParseError`].
#[verifier::ext_equal]
pub enum ParseErrorView {
    UnsupportedScheme(Seq<char>),
    EmptyHost,
    UnclosedIpv6,
    InvalidPort(Seq<char>),
}

impl View for ParseError {
    type V = ParseErrorView;

    open spec fn view(&self) -> ParseErrorView {
        match self {
            ParseError::UnsupportedScheme(raw) => ParseErrorView::UnsupportedScheme(raw@),
            ParseError::EmptyHost => ParseErrorView::EmptyHost,
            ParseError::UnclosedIpv6 => ParseErrorView::UnclosedIpv6,
            ParseError::InvalidPort(p) => ParseErrorView::InvalidPort(p@),
        }
    }
}

/// A target that was read.
#[derive(Debug, Clone)]
pub struct Target {
    pub host: String,
    pub port: u16,
    pub use_tls: bool,
    pub do_http: bool,
    pub path: String,
}

/// The contents of a [`Target`].
#[verifier::ext_equal]
pub struct TargetView {
    pub host: Seq<char>,
    pub port: u16,
    pub use_tls: bool,
    pub do_http: bool,
    pub path: Seq<char>,
}

impl View for Target {
    type V = TargetView;

    open spec fn view(&self) -> TargetView {
        TargetView {
            host: self.host@,
            port: self.port,
            use_tls: self.use_tls,
            do_http: self.do_http,
            path: self.path@,
        }
    }
}

/// The port that a text denotes: a decimal numeral up to 65535, perhaps with a
/// plus sign.
pub open spec fn port_of(s: Seq<char>) -> Option<u16> {
    let d = if s.len() > 0 && s[0] == '+' {
        s.skip(1)
    } else {
        s
    };
    if text::is_numeral(d) && text::numeral_value(d) <= u16::MAX {
        Some(text::numeral_value(d) as u16)
    } else {
        None
    }
}

/// The port that follows a host, or the complaint about it.
pub open spec fn explicit_port(s: Seq<char>) -> Result<Option<u16>, ParseErrorView> {
    match port_of(s) {
        Some(p) => Ok(Some(p)),
        None => Err(ParseErrorView::InvalidPort(s)),
    }
}

/// Host and port of `[v6]`, `[v6]:port`, `host` or `host:port`. A text with more
/// than one colon outside brackets is a host as a whole: a bare IPv6 address.
pub open spec fn host_port(s: Seq<char>) -> Result<(Seq<char>, Option<u16>), ParseErrorView> {
    if s.len() > 0 && s[0] == '[' {
        let inner = s.skip(1);
        let end = text::first_at(inner, ']');
        if end >= inner.len() {
            Err(ParseErrorView::UnclosedIpv6)
        } else {
            let after = inner.skip(end + 1);
            if after.len() > 0 && after[0] == ':' {
                match explicit_port(after.skip(1)) {
                    Ok(port) => Ok((inner.take(end), port)),
                    Err(e) => Err(e),
                }
            } else {
                Ok((inner.take(end), None))
            }
        }
    } else {
        let colon = text::first_at(s, ':');
        if colon < s.len() && text::first_at(s.skip(colon + 1), ':') == s.len() - colon - 1 {
            match explicit_port(s.skip(colon + 1)) {
                Ok(port) => Ok((s.take(colon), port)),
                Err(e) => Err(e),
            }
        } else {
            Ok((s, None))
        }
    }
}

/// Port, TLS and HTTP, from the scheme (`https` or not) and the port.
pub open spec fn service(https: Option<bool>, port: Option<u16>) -> (u16, bool, bool) {
    match (https, port) {
        (Some(true), Some(p)) => (p, true, true),
        (Some(true), None) => (443, true, true),
        (Some(false), Some(p)) => (p, false, true),
        (Some(false), None) => (80, false, true),
        (None, None) => (443, true, true),
        (None, Some(p)) => (p, p == 443, p == 443 || p == 80),
    }
}

/// What is left of a target after its scheme.
pub open spec fn authority(https: Option<bool>, rest: Seq<char>) -> Result<
    TargetView,
    ParseErrorView,
> {
    let slash = text::first_at(rest, '/');
    if slash == 0 {
        Err(ParseErrorView::EmptyHost)
    } else {
        match host_port(rest.take(slash)) {
            Ok((host, port)) => {
                let (port, use_tls, do_http) = service(https, port);
                Ok(
                    TargetView {
                        host,
                        port,
                        use_tls,
                        do_http,
                        path: if slash < rest.len() {
                            rest.skip(slash)
                        } else {
                            "/"@
                        },
                    },
                )
            },
            Err(e) => Err(e),
        }
    }
}

/// The target that a text denotes.
pub open spec fn target_of(raw: Seq<char>) -> Result<TargetView, ParseErrorView> {
    if text::begins_with(raw, "https://"@) {
        authority(Some(true), raw.skip("https://"@.len() as int))
    } else if text::begins_with(raw, "http://"@) {
        authority(Some(false), raw.skip("http://"@.len() as int))
    } else if text::contains(raw, "://"@) {
        Err(ParseErrorView::UnsupportedScheme(raw))
    } else {
        authority(None, raw)
    }
}

/// The result, seen through the views of its contents.
pub open spec fn result_view(r: Result<Target, ParseError>) -> Result<TargetView, ParseErrorView> {
    match r {
        Ok(t) => Ok(t@),
        Err(e) => Err(e@),
    }
}

fn read_port(s: &[char]) -> (r: Result<u16, ParseError>)
    ensures
        match r {
            Ok(p) => port_of(s@) == Some(p),
            Err(e) => port_of(s@) is None && e@ == ParseErrorView::InvalidPort(s@),
        },
{
    let digits = if s.len() > 0 && s[0] == '+' {
        slice_subrange(s, 1, s.len())
    } else {
        s
    };
    assert(digits@ == if s@.len() > 0 && s@[0] == '+' {
        s@.skip(1)
    } else {
        s@
    });
    match text::numeral(digits, 65535) {
        Some(n) => Ok(n as u16),
        None => Err(ParseError::InvalidPort(text::string_of(s))),
    }
}

fn read_host_port(s: &[char]) -> (r: Result<(String, Option<u16>), ParseError>)
    ensures
        match r {
            Ok((host, port)) => host_port(s@) == Ok::<(Seq<char>, Option<u16>), ParseErrorView>(
                (host@, port),
            ),
            Err(e) => host_port(s@) == Err::<(Seq<char>, Option<u16>), ParseErrorView>(e@),
        },
{
    if s.len() > 0 && s[0] == '[' {
        let inner = slice_subrange(s, 1, s.len());
        assert(inner@ == s@.skip(1));
        let end = text::find(inner, ']');
        if end >= inner.len() {
            return Err(ParseError::UnclosedIpv6);
        }
        let host = slice_subrange(inner, 0, end);
        assert(host@ == inner@.take(end as int));
        let after = slice_subrange(inner, end + 1, inner.len());
        assert(after@ == inner@.skip(end + 1));
        if after.len() > 0 && after[0] == ':' {
            let digits = slice_subrange(after, 1, after.len());
            assert(digits@ == after@.skip(1));
            match read_port(digits) {
                Ok(p) => Ok((text::string_of(host), Some(p))),
                Err(e) => Err(e),
            }
        } else {
            Ok((text::string_of(host), None))
        }
    } else {
        let colon = text::find(s, ':');
        if colon < s.len() {
            let after = slice_subrange(s, colon + 1, s.len());
            assert(after@ == s@.skip(colon + 1));
            if text::find(after, ':') == after.len() {
                let host = slice_subrange(s, 0, colon);
                assert(host@ == s@.take(colon as int));
                return match read_port(after) {
                    Ok(p) => Ok((text::string_of(host), Some(p))),
                    Err(e) => Err(e),
                };
            }
        }
        Ok((text::string_of(s), None))
    }
}

fn choose_service(https: Option<bool>, port: Option<u16>) -> (r: (u16, bool, bool))
    ensures
        r == service(https, port),
{
    match (https, port) {
        (Some(true), Some(p)) => (p, true, true),
        (Some(true), None) => (443, true, true),
        (Some(false), Some(p)) => (p, false, true),
        (Some(false), None) => (80, false, true),
        (None, None) => (443, true, true),
        (None, Some(p)) => (p, p == 443, p == 443 || p == 80),
    }
}

fn read_authority(https: Option<bool>, rest: &[char]) -> (r: Result<Target, ParseError>)
    ensures
        result_view(r) == authority(https, rest@),
{
    let slash = text::find(rest, '/');
    if slash == 0 {
        return Err(ParseError::EmptyHost);
    }
    let front = slice_subrange(rest, 0, slash);
    assert(front@ == rest@.take(slash as int));
    match read_host_port(front) {
        Ok((host, explicit)) => {
            let (port, use_tls, do_http) = choose_service(https, explicit);
            let path = if slash < rest.len() {
                let tail = slice_subrange(rest, slash, rest.len());
                assert(tail@ == rest@.skip(slash as int));
                text::string_of(tail)
            } else {
                "/".to_owned()
            };
            Ok(Target { host, port, use_tls, do_http, path })
        },
        Err(e) => Err(e),
    }
}

/// Reads a target.
pub fn parse_target(raw: &str) -> (r: Result<Target, ParseError>)
    ensures
        result_view(r) == target_of(raw@),
{
    let chars = text::chars_of(raw);
    let s = chars.as_slice();
    proof {
        reveal_strlit("https://");
        reveal_strlit("http://");
    }
    if text::starts_with(s, "https://") {
        let rest = slice_subrange(s, 8, s.len());
        assert(rest@ == raw@.skip(8));
        read_authority(Some(true), rest)
    } else if text::starts_with(s, "http://") {
        let rest = slice_subrange(s, 7, s.len());
        assert(rest@ == raw@.skip(7));
        read_authority(Some(false), rest)
    } else if text::has(s, "://") {
        Err(ParseError::UnsupportedScheme(raw.to_owned()))
    } else {
        read_authority(None, s)
    }
}

impl Target {
    /// The host is written as an address.
    pub open spec fn literal(self) -> bool {
        addr::ip_of(self.host@) is Some
    }

    /// The target as the report shows it.
    pub fn info(&self) -> (info: TargetInfo)
        ensures
            info.host@ == self.host@,
            info.port == self.port,
            info.use_tls == self.use_tls,
            info.do_http == self.do_http,
            info.path@ == self.path@,
            info.is_ip_literal == self.literal(),
    {
        TargetInfo {
            host: self.host.clone(),
            port: self.port,
            use_tls: self.use_tls,
            do_http: self.do_http,
            path: self.path.clone(),
            is_ip_literal: addr::parse_ip(self.host.as_str()).is_some(),
        }
    }
}

// ── What holds of every target ──────────────────────────────────────────

/// A host name as it stands alone: not empty, and free of the characters that
/// structure a target.
pub open spec fn plain_host(h: Seq<char>) -> bool {
    &&& h.len() > 0
    &&& h[0] != '['
    &&& forall|i: int| 0 <= i < h.len() ==> #[trigger] h[i] != '/' && h[i] != ':'
}

/// A bare host means HTTPS on port 443, and so does the same host with the
/// `https` scheme.
pub proof fn law_bare_host_means_https(h: Seq<char>)
    requires
        plain_host(h),
    ensures
        target_of(h) == Ok::<TargetView, ParseErrorView>(
            TargetView { host: h, port: 443, use_tls: true, do_http: true, path: "/"@ },
        ),
        target_of("https://"@ + h) == target_of(h),
{
    reveal_strlit("https://");
    reveal_strlit("http://");
    reveal_strlit("://");
    text::lemma_first_at_unique(h, '/', h.len() as int);
    text::lemma_first_at_unique(h, ':', h.len() as int);
    assert(h.take(h.len() as int) == h);
    let full = "https://"@ + h;
    assert(full.take(8) == "https://"@);
    assert(full.skip(8) == h);
    if text::begins_with(h, "https://"@) {
        assert("https://"@[5] == ':');
        assert(h[5] == h.take(8)[5]);
    }
    if text::begins_with(h, "http://"@) {
        assert("http://"@[4] == ':');
        assert(h[4] == h.take(7)[4]);
    }
    if text::contains(h, "://"@) {
        let i = choose|i: int| text::occurs_at(h, "://"@, i);
        assert("://"@[0] == ':');
        assert(h[i] == h.subrange(i, i + 3)[0]);
    }
}

/// The `http` scheme means port 80 without TLS.
pub proof fn law_http_scheme_means_port_80(h: Seq<char>)
    requires
        plain_host(h),
    ensures
        target_of("http://"@ + h) == Ok::<TargetView, ParseErrorView>(
            TargetView { host: h, port: 80, use_tls: false, do_http: true, path: "/"@ },
        ),
{
    reveal_strlit("https://");
    reveal_strlit("http://");
    text::lemma_first_at_unique(h, '/', h.len() as int);
    text::lemma_first_at_unique(h, ':', h.len() as int);
    assert(h.take(h.len() as int) == h);
    let full = "http://"@ + h;
    assert(full.take(7) == "http://"@);
    assert(full.skip(7) == h);
    if text::begins_with(full, "https://"@) {
        assert("https://"@[4] == 's');
        assert(full[4] == full.take(8)[4]);
        assert("http://"@[4] == ':');
    }
}

/// `host:port` is read back as host and port. TLS goes with port 443, HTTP with
/// 443 and 80; any other port is a plain TCP diagnosis.
pub proof fn law_host_and_port_are_read_back(h: Seq<char>, p: u16)
    requires
        plain_host(h),
    ensures
        target_of(h + ":"@ + text::dec(p as nat)) == Ok::<TargetView, ParseErrorView>(
            TargetView {
                host: h,
                port: p,
                use_tls: p == 443,
                do_http: p == 443 || p == 80,
                path: "/"@,
            },
        ),
{
    reveal_strlit("https://");
    reveal_strlit("http://");
    reveal_strlit("://");
    reveal_strlit(":");
    let d = text::dec(p as nat);
    text::lemma_dec(p as nat);
    let full = h + ":"@ + d;
    assert forall|i: int| 0 <= i < full.len() implies #[trigger] full[i] != '/' by {
        if i > h.len() {
            assert(full[i] == d[i - h.len() - 1]);
            assert(text::is_digit(d[i - h.len() - 1]));
        } else if i < h.len() {
            assert(full[i] == h[i]);
        }
    }
    text::lemma_first_at_unique(full, '/', full.len() as int);
    assert(full.take(full.len() as int) == full);
    assert forall|i: int| 0 <= i < h.len() implies #[trigger] full[i] != ':' by {
        assert(full[i] == h[i]);
    }
    text::lemma_first_at_unique(full, ':', h.len() as int);
    assert(full.skip(h.len() as int + 1) == d);
    assert forall|i: int| 0 <= i < d.len() implies #[trigger] d[i] != ':' by {
        assert(text::is_digit(d[i]));
    }
    text::lemma_first_at_unique(d, ':', d.len() as int);
    assert(full.take(h.len() as int) == h);
    assert(text::is_digit(d[0]));
    assert(full[0] == h[0]);
    if text::begins_with(full, "https://"@) {
        assert("https://"@[6] == '/');
        assert(full[6] == full.take(8)[6]);
    }
    if text::begins_with(full, "http://"@) {
        assert("http://"@[5] == '/');
        assert(full[5] == full.take(7)[5]);
    }
    if text::contains(full, "://"@) {
        let i = choose|i: int| text::occurs_at(full, "://"@, i);
        assert("://"@[1] == '/');
        assert(full[i + 1] == full.subrange(i, i + 3)[1]);
    }
}

/// The path of a target always begins with a slash.
pub proof fn law_path_begins_with_a_slash(raw: Seq<char>)
    requires
        target_of(raw) is Ok,
    ensures
        target_of(raw)->Ok_0.path.len() > 0,
        target_of(raw)->Ok_0.path[0] == '/',
{
    reveal_strlit("/");
    text::lemma_first_at(raw, '/');
    text::lemma_first_at(raw.skip("https://"@.len() as int), '/');
    text::lemma_first_at(raw.skip("http://"@.len() as int), '/');
}

} // verus!
