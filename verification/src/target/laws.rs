//! What the reading of targets promises, told by how a target is written.

use crate::target;
use crate::target::{ParseErrorView, TargetView};
use crate::text;
use crate::text::laws;
use vstd::prelude::*;

verus! {

/// The scheme in front of a target: `https`, `http` or none.
pub open spec fn scheme(https: Option<bool>) -> Seq<char> {
    match https {
        Some(true) => "https://"@,
        Some(false) => "http://"@,
        None => ""@,
    }
}

/// What follows a scheme; without one, it holds none.
pub open spec fn follows(https: Option<bool>, rest: Seq<char>) -> bool {
    https is None ==> !laws::holds(rest, "://"@)
}

/// The character does not occur.
pub open spec fn lacks(s: Seq<char>, c: char) -> bool {
    forall|i: int| 0 <= i < s.len() ==> #[trigger] s[i] != c
}

/// The path behind a host: nothing, or a slash and more.
pub open spec fn is_tail(tail: Seq<char>) -> bool {
    tail.len() == 0 || tail[0] == '/'
}

/// The path that is asked for.
pub open spec fn path(tail: Seq<char>) -> Seq<char> {
    if tail.len() == 0 {
        "/"@
    } else {
        tail
    }
}

proof fn lemma_scheme(https: Option<bool>, rest: Seq<char>)
    requires
        follows(https, rest),
    ensures
        target::target_of(scheme(https) + rest) == target::authority(https, rest),
{
    reveal_strlit("https://");
    reveal_strlit("http://");
    reveal_strlit("://");
    reveal_strlit("");
    let raw = scheme(https) + rest;
    match https {
        Some(true) => {
            assert(raw.take(8) =~= "https://"@);
            assert(raw.skip(8) =~= rest);
        },
        Some(false) => {
            assert(raw.take(7) =~= "http://"@);
            assert(raw.skip(7) =~= rest);
            if text::begins_with(raw, "https://"@) {
                assert("https://"@[4] == 's');
                assert(raw[4] == raw.take(8)[4]);
                assert("http://"@[4] == ':');
            }
        },
        None => {
            assert(raw =~= rest);
            laws::law_search(rest, "://"@);
            if text::begins_with(raw, "https://"@) {
                assert(raw.subrange(5, 8) =~= raw.take(8).subrange(5, 8));
                assert("https://"@.subrange(5, 8) =~= "://"@);
                assert(text::occurs_at(raw, "://"@, 5));
            }
            if text::begins_with(raw, "http://"@) {
                assert(raw.subrange(4, 7) =~= raw.take(7).subrange(4, 7));
                assert("http://"@.subrange(4, 7) =~= "://"@);
                assert(text::occurs_at(raw, "://"@, 4));
            }
        },
    }
}

proof fn lemma_authority(https: Option<bool>, a: Seq<char>, tail: Seq<char>)
    requires
        a.len() > 0,
        lacks(a, '/'),
        is_tail(tail),
    ensures
        match target::host_port(a) {
            Ok((host, port)) => target::authority(https, a + tail) == Ok::<
                TargetView,
                ParseErrorView,
            >(
                TargetView {
                    host,
                    port: target::service(https, port).0,
                    use_tls: target::service(https, port).1,
                    do_http: target::service(https, port).2,
                    path: path(tail),
                },
            ),
            Err(e) => target::authority(https, a + tail) == Err::<TargetView, ParseErrorView>(e),
        },
{
    let rest = a + tail;
    let n = a.len() as int;
    assert forall|i: int| 0 <= i < n implies #[trigger] rest[i] != '/' by {
        assert(rest[i] == a[i]);
    }
    text::lemma_first_at_unique(rest, '/', n);
    assert(rest.take(n) =~= a);
    assert(rest.skip(n) =~= tail);
}

proof fn lemma_no_colon(h: Seq<char>)
    requires
        h.len() > 0,
        h[0] != '[',
        lacks(h, ':'),
    ensures
        target::host_port(h) == Ok::<(Seq<char>, Option<u16>), ParseErrorView>((h, None)),
{
    text::lemma_first_at_unique(h, ':', h.len() as int);
}

proof fn lemma_one_colon(h: Seq<char>, p: Seq<char>)
    requires
        h.len() == 0 || h[0] != '[',
        lacks(h, ':'),
        lacks(p, ':'),
    ensures
        target::host_port(h + seq![':'] + p) == match target::port_of(p) {
            Some(n) => Ok::<(Seq<char>, Option<u16>), ParseErrorView>((h, Some(n))),
            None => Err(ParseErrorView::InvalidPort(p)),
        },
{
    let s = h + seq![':'] + p;
    let n = h.len() as int;
    assert(s[n] == ':');
    assert forall|i: int| 0 <= i < n implies #[trigger] s[i] != ':' by {
        assert(s[i] == h[i]);
    }
    text::lemma_first_at_unique(s, ':', n);
    assert(s.skip(n + 1) =~= p);
    text::lemma_first_at_unique(p, ':', p.len() as int);
    assert(s.take(n) =~= h);
}

proof fn lemma_more_colons(s: Seq<char>, i: int, j: int)
    requires
        s.len() > 0,
        s[0] != '[',
        0 <= i < j < s.len(),
        s[i] == ':',
        s[j] == ':',
    ensures
        target::host_port(s) == Ok::<(Seq<char>, Option<u16>), ParseErrorView>((s, None)),
{
    text::lemma_first_at(s, ':');
    let c = text::first_at(s, ':');
    let rest = s.skip(c + 1);
    text::lemma_first_at(rest, ':');
    assert(rest[j - c - 1] == ':');
}

proof fn lemma_bracketed(x: Seq<char>, after: Seq<char>)
    requires
        lacks(x, ']'),
    ensures
        target::host_port(seq!['['] + x + seq![']'] + after) == if after.len() > 0 && after[0]
            == ':' {
            match target::port_of(after.skip(1)) {
                Some(n) => Ok::<(Seq<char>, Option<u16>), ParseErrorView>((x, Some(n))),
                None => Err(ParseErrorView::InvalidPort(after.skip(1))),
            }
        } else {
            Ok((x, None))
        },
{
    let s = seq!['['] + x + seq![']'] + after;
    let inner = s.skip(1);
    let n = x.len() as int;
    assert(inner =~= x + seq![']'] + after);
    assert(inner[n] == ']');
    assert forall|i: int| 0 <= i < n implies #[trigger] inner[i] != ']' by {
        assert(inner[i] == x[i]);
    }
    text::lemma_first_at_unique(inner, ']', n);
    assert(inner.take(n) =~= x);
    assert(inner.skip(n + 1) =~= after);
}

// ── Ports ───────────────────────────────────────────────────────────────

/// A port is read back from its numeral, with or without a plus sign; a number above
/// 65535 is no port, and neither is a text with another character.
pub proof fn law_ports(n: nat, s: Seq<char>, i: int)
    ensures
        n <= 65535 ==> target::port_of(text::dec(n)) == Some(n as u16),
        n <= 65535 ==> target::port_of(seq!['+'] + text::dec(n)) == Some(n as u16),
        n > 65535 ==> target::port_of(text::dec(n)) is None,
        target::port_of(Seq::empty()) is None,
        0 <= i < s.len() && !('0' <= s[i] <= '9') && !(i == 0 && s[i] == '+') ==> target::port_of(s)
            is None,
{
    let d = text::dec(n);
    text::lemma_dec(n);
    assert(text::is_digit(d[0]));
    let p = seq!['+'] + d;
    assert(p.skip(1) =~= d);
    if 0 <= i < s.len() && !('0' <= s[i] <= '9') && !(i == 0 && s[i] == '+') {
        if s[0] == '+' {
            assert(s.skip(1)[i - 1] == s[i]);
            assert(!text::is_digit(s.skip(1)[i - 1]));
        } else {
            assert(!text::is_digit(s[i]));
        }
    }
}

/// A port behind a host, by any scheme: the host, the port and the path are those that
/// are written. TLS goes with `https`, or without a scheme with port 443; HTTP goes with
/// either scheme, or without one with ports 443 and 80.
pub proof fn law_host_and_port(https: Option<bool>, h: Seq<char>, p: u16, tail: Seq<char>)
    requires
        h.len() > 0,
        h[0] != '[',
        lacks(h, ':'),
        lacks(h, '/'),
        is_tail(tail),
        follows(https, h + seq![':'] + text::dec(p as nat) + tail),
    ensures
        target::target_of(scheme(https) + (h + seq![':'] + text::dec(p as nat) + tail)) == Ok::<
            TargetView,
            ParseErrorView,
        >(
            TargetView {
                host: h,
                port: p,
                use_tls: https == Some(true) || (https is None && p == 443),
                do_http: https is Some || p == 443 || p == 80,
                path: path(tail),
            },
        ),
{
    let d = text::dec(p as nat);
    let a = h + seq![':'] + d;
    lemma_digits(p as nat);
    lemma_lacks(h, d, '/');
    lemma_scheme(https, a + tail);
    lemma_authority(https, a, tail);
    lemma_one_colon(h, d);
    law_ports(p as nat, d, 0);
}

proof fn lemma_digits(n: nat)
    ensures
        lacks(text::dec(n), ':'),
        lacks(text::dec(n), '/'),
        lacks(text::dec(n), ']'),
{
    text::lemma_dec(n);
    let d = text::dec(n);
    assert forall|i: int| 0 <= i < d.len() implies #[trigger] d[i] != ':' && d[i] != '/' && d[i]
        != ']' by {
        assert(text::is_digit(d[i]));
    }
}

proof fn lemma_lacks(h: Seq<char>, d: Seq<char>, c: char)
    requires
        lacks(h, c),
        lacks(d, c),
        c != ':',
    ensures
        lacks(h + seq![':'] + d, c),
{
    let a = h + seq![':'] + d;
    assert forall|i: int| 0 <= i < a.len() implies #[trigger] a[i] != c by {
        if i < h.len() {
            assert(a[i] == h[i]);
        } else if i > h.len() {
            assert(a[i] == d[i - h.len() - 1]);
        }
    }
}

/// Without a port, a host is asked on port 443 by TLS, unless the scheme is `http`: then
/// on port 80 without it.
pub proof fn law_host_alone(https: Option<bool>, h: Seq<char>, tail: Seq<char>)
    requires
        h.len() > 0,
        h[0] != '[',
        lacks(h, ':'),
        lacks(h, '/'),
        is_tail(tail),
        follows(https, h + tail),
    ensures
        target::target_of(scheme(https) + (h + tail)) == Ok::<TargetView, ParseErrorView>(
            TargetView {
                host: h,
                port: if https == Some(false) {
                    80
                } else {
                    443
                },
                use_tls: https != Some(false),
                do_http: true,
                path: path(tail),
            },
        ),
{
    lemma_scheme(https, h + tail);
    lemma_authority(https, h, tail);
    lemma_no_colon(h);
}

/// A text with two colons or more is a host as a whole: an IPv6 address.
pub proof fn law_bare_ipv6(https: Option<bool>, h: Seq<char>, i: int, j: int, tail: Seq<char>)
    requires
        0 <= i < j < h.len(),
        h[i] == ':',
        h[j] == ':',
        h[0] != '[',
        lacks(h, '/'),
        is_tail(tail),
        follows(https, h + tail),
    ensures
        target::target_of(scheme(https) + (h + tail)) == Ok::<TargetView, ParseErrorView>(
            TargetView {
                host: h,
                port: if https == Some(false) {
                    80
                } else {
                    443
                },
                use_tls: https != Some(false),
                do_http: true,
                path: path(tail),
            },
        ),
{
    lemma_scheme(https, h + tail);
    lemma_authority(https, h, tail);
    lemma_more_colons(h, i, j);
}

/// Brackets around an address are taken off, and a port may follow them.
pub proof fn law_bracketed_ipv6(https: Option<bool>, x: Seq<char>, p: u16, tail: Seq<char>)
    requires
        lacks(x, ']'),
        lacks(x, '/'),
        is_tail(tail),
    ensures
        ({
            let a = seq!['['] + x + seq![']'];
            follows(https, a + tail) ==> target::target_of(scheme(https) + (a + tail)) == Ok::<
                TargetView,
                ParseErrorView,
            >(
                TargetView {
                    host: x,
                    port: if https == Some(false) {
                        80
                    } else {
                        443
                    },
                    use_tls: https != Some(false),
                    do_http: true,
                    path: path(tail),
                },
            )
        }),
        ({
            let a = seq!['['] + x + seq![']'] + (seq![':'] + text::dec(p as nat));
            follows(https, a + tail) ==> target::target_of(scheme(https) + (a + tail)) == Ok::<
                TargetView,
                ParseErrorView,
            >(
                TargetView {
                    host: x,
                    port: p,
                    use_tls: https == Some(true) || (https is None && p == 443),
                    do_http: https is Some || p == 443 || p == 80,
                    path: path(tail),
                },
            )
        }),
{
    let a = seq!['['] + x + seq![']'];
    assert forall|i: int| 0 <= i < a.len() implies #[trigger] a[i] != '/' by {
        if 0 < i <= x.len() {
            assert(a[i] == x[i - 1]);
        }
    }
    assert(a + Seq::<char>::empty() =~= a);
    lemma_bracketed(x, Seq::empty());
    lemma_authority(https, a, tail);
    if follows(https, a + tail) {
        lemma_scheme(https, a + tail);
    }
    let d = text::dec(p as nat);
    let after = seq![':'] + d;
    let b = a + after;
    lemma_digits(p as nat);
    lemma_lacks(a, d, '/');
    assert(b =~= a + seq![':'] + d);
    assert(after.skip(1) =~= d);
    law_ports(p as nat, d, 0);
    lemma_bracketed(x, after);
    lemma_authority(https, b, tail);
    if follows(https, b + tail) {
        lemma_scheme(https, b + tail);
    }
}

// ── Refusals ────────────────────────────────────────────────────────────

/// Any other scheme is refused, with the whole text.
pub proof fn law_other_schemes(raw: Seq<char>)
    requires
        laws::holds(raw, "://"@),
        forall|rest: Seq<char>| raw != #[trigger] ("https://"@ + rest),
        forall|rest: Seq<char>| raw != #[trigger] ("http://"@ + rest),
    ensures
        target::target_of(raw) == Err::<TargetView, ParseErrorView>(
            ParseErrorView::UnsupportedScheme(raw),
        ),
{
    reveal_strlit("https://");
    reveal_strlit("http://");
    laws::law_search(raw, "://"@);
    if text::begins_with(raw, "https://"@) {
        assert(raw =~= "https://"@ + raw.skip(8));
    }
    if text::begins_with(raw, "http://"@) {
        assert(raw =~= "http://"@ + raw.skip(7));
    }
}

/// A target without a host is refused.
pub proof fn law_no_host(https: Option<bool>, tail: Seq<char>)
    requires
        is_tail(tail),
        follows(https, tail),
    ensures
        target::target_of(scheme(https) + tail) == Err::<TargetView, ParseErrorView>(
            ParseErrorView::EmptyHost,
        ),
{
    lemma_scheme(https, tail);
    text::lemma_first_at_unique(tail, '/', 0);
}

/// A bracket that is not closed is refused.
pub proof fn law_unclosed_bracket(https: Option<bool>, x: Seq<char>, tail: Seq<char>)
    requires
        lacks(x, ']'),
        lacks(x, '/'),
        is_tail(tail),
        follows(https, seq!['['] + x + tail),
    ensures
        target::target_of(scheme(https) + (seq!['['] + x + tail)) == Err::<
            TargetView,
            ParseErrorView,
        >(ParseErrorView::UnclosedIpv6),
{
    let a = seq!['['] + x;
    assert forall|i: int| 0 <= i < a.len() implies #[trigger] a[i] != '/' by {
        if i > 0 {
            assert(a[i] == x[i - 1]);
        }
    }
    lemma_scheme(https, a + tail);
    lemma_authority(https, a, tail);
    assert(a.skip(1) =~= x);
    text::lemma_first_at_unique(x, ']', x.len() as int);
}

/// What stands for a port and is none is refused, with that text.
pub proof fn law_bad_port(https: Option<bool>, h: Seq<char>, p: Seq<char>, tail: Seq<char>)
    requires
        h.len() > 0,
        h[0] != '[',
        lacks(h, ':'),
        lacks(h, '/'),
        lacks(p, ':'),
        lacks(p, '/'),
        target::port_of(p) is None,
        is_tail(tail),
        follows(https, h + seq![':'] + p + tail),
    ensures
        target::target_of(scheme(https) + (h + seq![':'] + p + tail)) == Err::<
            TargetView,
            ParseErrorView,
        >(ParseErrorView::InvalidPort(p)),
{
    let a = h + seq![':'] + p;
    lemma_lacks(h, p, '/');
    lemma_scheme(https, a + tail);
    lemma_authority(https, a, tail);
    lemma_one_colon(h, p);
}

} // verus!
