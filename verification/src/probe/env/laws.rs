//! What the readers of the configuration files promise, told in terms of the lines
//! and the words on them.

use crate::addr;
use crate::addr::IpAddr;
use crate::probe::env;
use crate::text;
use crate::text::laws;
use vstd::prelude::*;

verus! {

/// The lines of a file: none of them holds a line break.
pub open spec fn are_lines(lines: Seq<Seq<char>>) -> bool {
    &&& lines.len() > 0
    &&& forall|i: int| 0 <= i < lines.len() ==> addr::laws::free_of(#[trigger] lines[i], '\n')
}

proof fn lemma_lines(lines: Seq<Seq<char>>)
    requires
        are_lines(lines),
    ensures
        text::split(text::join(lines, "\n"@), '\n') == lines,
{
    reveal_strlit("\n");
    assert("\n"@ =~= seq!['\n']);
    addr::laws::lemma_split_join(lines, '\n');
}

// ── /etc/hosts ──────────────────────────────────────────────────────────

/// A word from `i` up to `j` of the line, before any `#` and with another word before
/// it, is the host, in upper or lower case.
pub open spec fn host_at(line: Seq<char>, host: Seq<char>, i: int, j: int) -> bool {
    let s = text::before(line, '#');
    &&& laws::word_at(s, i, j)
    &&& !laws::blank(s, 0, i)
    &&& laws::same_but_for_case(s.subrange(i, j), host)
}

/// The host is among the names of the line.
pub open spec fn is_on_line(line: Seq<char>, host: Seq<char>) -> bool {
    exists|i: int, j: int| host_at(line, host, i, j)
}

proof fn lemma_names_host(line: Seq<char>, host: Seq<char>)
    ensures
        env::names_host(text::words(text::before(line, '#')), host) <==> is_on_line(line, host),
{
    let s = text::before(line, '#');
    let w = text::words(s);
    if env::names_host(w, host) {
        let k = choose|k: int|
            1 <= k < w.len() && text::lowered(#[trigger] w[k]) == text::lowered(host);
        let (i, j) = laws::law_only_words_are_found(s, k);
        laws::law_lower_case(w[k], host);
        assert(host_at(line, host, i, j));
    }
    if is_on_line(line, host) {
        let (i, j) = choose|i: int, j: int| host_at(line, host, i, j);
        let k = laws::law_every_word_is_found(s, i, j);
        laws::law_lower_case(w[k], host);
        assert(1 <= k < w.len() && text::lowered(w[k]) == text::lowered(host));
    }
}

proof fn lemma_override(lines: Seq<Seq<char>>, host: Seq<char>, k: int)
    requires
        0 <= k <= lines.len(),
        forall|m: int| 0 <= m < k ==> !is_on_line(#[trigger] lines[m], host),
        k < lines.len() ==> is_on_line(lines[k], host),
    ensures
        k < lines.len() ==> env::override_of(lines, host) == Some(
            text::words(text::before(lines[k], '#'))[0],
        ),
        k == lines.len() ==> env::override_of(lines, host) is None,
    decreases lines.len(),
{
    if lines.len() > 0 {
        lemma_names_host(lines[0], host);
        if k > 0 {
            let rest = lines.drop_first();
            assert(!is_on_line(lines[0], host));
            assert forall|m: int| 0 <= m < k - 1 implies !is_on_line(#[trigger] rest[m], host) by {
                assert(rest[m] == lines[m + 1]);
            }
            if k < lines.len() {
                assert(rest[k - 1] == lines[k]);
            }
            lemma_override(rest, host, k - 1);
        }
    }
}

/// The override is the first word of the first line that has the host among its other
/// words, wherever on the line it stands and in whatever case.
pub proof fn law_hosts_override(
    lines: Seq<Seq<char>>,
    host: Seq<char>,
    k: int,
    a: int,
    b: int,
    i: int,
    j: int,
)
    requires
        are_lines(lines),
        0 <= k < lines.len(),
        forall|m: int| 0 <= m < k ==> !is_on_line(#[trigger] lines[m], host),
        ({
            let s = text::before(lines[k], '#');
            &&& laws::word_at(s, a, b)
            &&& laws::blank(s, 0, a)
            &&& laws::word_at(s, i, j)
            &&& b < i
            &&& laws::same_but_for_case(s.subrange(i, j), host)
        }),
    ensures
        env::override_of(text::split(text::join(lines, "\n"@), '\n'), host) == Some(
            lines[k].subrange(a, b),
        ),
{
    let s = text::before(lines[k], '#');
    lemma_lines(lines);
    assert(!text::is_space(s[a]));
    assert(host_at(lines[k], host, i, j));
    lemma_override(lines, host, k);
    let first = laws::law_every_word_is_found(s, a, b);
    laws::law_before(lines[k], '#');
    assert(lines[k].take(s.len() as int).subrange(a, b) =~= lines[k].subrange(a, b));
}

/// There is no override where no line has the host among its words after the first.
pub proof fn law_no_hosts_override(lines: Seq<Seq<char>>, host: Seq<char>)
    requires
        are_lines(lines),
        forall|m: int| 0 <= m < lines.len() ==> !is_on_line(#[trigger] lines[m], host),
    ensures
        env::override_of(text::split(text::join(lines, "\n"@), '\n'), host) is None,
{
    lemma_lines(lines);
    lemma_override(lines, host, lines.len() as int);
}

// ── /etc/resolv.conf ────────────────────────────────────────────────────

/// The name servers of a file with these lines.
pub open spec fn servers_in(lines: Seq<Seq<char>>) -> Seq<IpAddr> {
    env::servers_of(text::split(text::join(lines, "\n"@), '\n'))
}

/// The search domains of a file with these lines.
pub open spec fn domains_in(lines: Seq<Seq<char>>) -> Seq<Seq<char>> {
    env::domains_of(text::split(text::join(lines, "\n"@), '\n'))
}

/// A line up to its comment, which begins with `#` or `;`.
pub open spec fn is_uncommented(s: Seq<char>, line: Seq<char>) -> bool {
    &&& s.len() <= line.len()
    &&& line.take(s.len() as int) == s
    &&& forall|i: int| 0 <= i < s.len() ==> #[trigger] s[i] != '#' && s[i] != ';'
    &&& s.len() < line.len() ==> line[s.len() as int] == '#' || line[s.len() as int] == ';'
}

proof fn lemma_uncommented(s: Seq<char>, line: Seq<char>)
    requires
        is_uncommented(s, line),
    ensures
        env::uncommented(line) == s,
{
    let n = s.len() as int;
    let h = text::before(line, '#');
    text::lemma_first_at(line, '#');
    assert forall|i: int| 0 <= i < n implies line[i] != '#' && line[i] != ';' by {
        assert(s[i] == line.take(n)[i]);
        assert(s[i] != '#' && s[i] != ';');
    }
    assert(h.len() >= n) by {
        if h.len() < n {
            assert(line[h.len() as int] == '#');
        }
    }
    assert forall|i: int| 0 <= i < n implies h[i] != ';' by {
        assert(h[i] == line[i]);
    }
    if n < h.len() {
        assert(h[n] == line[n]);
        assert(line[n] != '#');
    }
    text::lemma_first_at_unique(h, ';', n);
    assert(h.take(n) =~= s) by {
        assert forall|i: int| 0 <= i < n implies h[i] == s[i] by {
            assert(h[i] == line[i]);
            assert(s[i] == line.take(n)[i]);
        }
    }
}

proof fn lemma_one_more(lines: Seq<Seq<char>>, line: Seq<char>)
    requires
        are_lines(lines),
        addr::laws::free_of(line, '\n'),
    ensures
        servers_in(lines.push(line)) == servers_in(lines) + env::line_server(
            text::words(env::uncommented(line)),
        ),
        domains_in(lines.push(line)) == domains_in(lines) + env::line_domains(
            text::words(env::uncommented(line)),
        ),
{
    let more = lines.push(line);
    assert forall|i: int| 0 <= i < more.len() implies addr::laws::free_of(#[trigger] more[i], '\n') by {
        if i < lines.len() {
            assert(more[i] == lines[i]);
        }
    }
    lemma_lines(lines);
    lemma_lines(more);
    assert(more.drop_last() == lines);
}

/// A further line that says `nameserver` and an address adds that address, and no
/// search domain. A scope behind the address is dropped, a comment is passed over, and
/// so are further words.
pub proof fn law_nameserver_line(
    lines: Seq<Seq<char>>,
    line: Seq<char>,
    s: Seq<char>,
    a: int,
    b: int,
    c: int,
    d: int,
    ip: IpAddr,
    scope: Seq<char>,
)
    requires
        are_lines(lines),
        addr::laws::free_of(line, '\n'),
        is_uncommented(s, line),
        laws::word_at(s, a, b),
        laws::blank(s, 0, a),
        laws::word_at(s, c, d),
        b < c,
        laws::blank(s, b, c),
        s.subrange(a, b) == "nameserver"@,
        s.subrange(c, d) == ip.shown() || s.subrange(c, d) == ip.shown() + seq!['%'] + scope,
    ensures
        servers_in(lines.push(line)) == servers_in(lines).push(ip),
        domains_in(lines.push(line)) == domains_in(lines),
{
    lemma_uncommented(s, line);
    lemma_one_more(lines, line);
    laws::law_first_two_words(s, a, b, c, d);
    addr::laws::law_addresses_are_plain(ip);
    addr::laws::law_addresses_read_back(ip);
    assert forall|i: int| 0 <= i < ip.shown().len() implies #[trigger] ip.shown()[i] != '%' by {
        assert(addr::laws::is_symbol(ip.shown()[i]));
    }
    laws::law_cut(ip.shown(), '%', scope);
    let w = text::words(s);
    assert(env::line_server(w) == seq![ip]);
    lemma_keywords();
    assert(env::line_domains(w) == Seq::<Seq<char>>::empty());
    assert(servers_in(lines) + seq![ip] =~= servers_in(lines).push(ip));
    assert(domains_in(lines) + Seq::<Seq<char>>::empty() =~= domains_in(lines));
}

proof fn lemma_keywords()
    ensures
        "nameserver"@ != "search"@,
        "nameserver"@ != "domain"@,
{
    reveal_strlit("nameserver");
    reveal_strlit("search");
    reveal_strlit("domain");
    assert("nameserver"@.len() == 10);
    assert("search"@.len() == 6);
    assert("domain"@.len() == 6);
}

/// A further line that says `nameserver` and something else than an address adds nothing.
pub proof fn law_bad_nameserver_line(
    lines: Seq<Seq<char>>,
    line: Seq<char>,
    s: Seq<char>,
    a: int,
    b: int,
    c: int,
    d: int,
)
    requires
        are_lines(lines),
        addr::laws::free_of(line, '\n'),
        is_uncommented(s, line),
        laws::word_at(s, a, b),
        laws::blank(s, 0, a),
        laws::word_at(s, c, d),
        b < c,
        laws::blank(s, b, c),
        s.subrange(a, b) == "nameserver"@,
        addr::laws::free_of(s.subrange(c, d), '%'),
        addr::ip_of(s.subrange(c, d)) is None,
    ensures
        servers_in(lines.push(line)) == servers_in(lines),
        domains_in(lines.push(line)) == domains_in(lines),
{
    lemma_uncommented(s, line);
    lemma_one_more(lines, line);
    laws::law_first_two_words(s, a, b, c, d);
    laws::law_cut(s.subrange(c, d), '%', Seq::empty());
    lemma_keywords();
    assert(servers_in(lines) + Seq::<IpAddr>::empty() =~= servers_in(lines));
    assert(domains_in(lines) + Seq::<Seq<char>>::empty() =~= domains_in(lines));
}

/// A further line that says `search` or `domain` adds its other words as search
/// domains, in order, and no name server.
pub proof fn law_search_line(
    lines: Seq<Seq<char>>,
    line: Seq<char>,
    s: Seq<char>,
    a: int,
    b: int,
)
    requires
        are_lines(lines),
        addr::laws::free_of(line, '\n'),
        is_uncommented(s, line),
        laws::word_at(s, a, b),
        laws::blank(s, 0, a),
        s.subrange(a, b) == "search"@ || s.subrange(a, b) == "domain"@,
    ensures
        domains_in(lines.push(line)) == domains_in(lines) + text::words(s).drop_first(),
        servers_in(lines.push(line)) == servers_in(lines),
{
    lemma_uncommented(s, line);
    lemma_one_more(lines, line);
    let k = laws::law_every_word_is_found(s, a, b);
    lemma_keywords();
    assert(text::words(s).skip(1) =~= text::words(s).drop_first());
    assert(servers_in(lines) + Seq::<IpAddr>::empty() =~= servers_in(lines));
}

/// A further line that begins with another word, or is blank, adds nothing.
pub proof fn law_other_line(lines: Seq<Seq<char>>, line: Seq<char>, s: Seq<char>)
    requires
        are_lines(lines),
        addr::laws::free_of(line, '\n'),
        is_uncommented(s, line),
        forall|a: int, b: int|
            #![trigger laws::word_at(s, a, b)]
            laws::word_at(s, a, b) && laws::blank(s, 0, a) ==> s.subrange(a, b) != "nameserver"@
                && s.subrange(a, b) != "search"@ && s.subrange(a, b) != "domain"@,
    ensures
        servers_in(lines.push(line)) == servers_in(lines),
        domains_in(lines.push(line)) == domains_in(lines),
{
    lemma_uncommented(s, line);
    lemma_one_more(lines, line);
    let w = text::words(s);
    if w.len() > 0 {
        let (a, b) = laws::law_only_words_are_found(s, 0);
        assert(laws::word_at(s, a, b));
    }
    assert(env::line_server(w) =~= Seq::<IpAddr>::empty());
    assert(env::line_domains(w) =~= Seq::<Seq<char>>::empty());
    assert(servers_in(lines) + Seq::<IpAddr>::empty() =~= servers_in(lines));
    assert(domains_in(lines) + Seq::<Seq<char>>::empty() =~= domains_in(lines));
}

// ── Proxy variables ─────────────────────────────────────────────────────

/// The variable has this value: the first entry of that name holds it.
pub open spec fn is_set(vars: Seq<(String, String)>, name: Seq<char>, value: Seq<char>) -> bool {
    exists|k: int|
        0 <= k < vars.len() && (#[trigger] vars[k]).0@ == name && vars[k].1@ == value && forall|j: int|
            0 <= j < k ==> (#[trigger] vars[j]).0@ != name
}

proof fn lemma_value(vars: Seq<(String, String)>, name: Seq<char>, value: Seq<char>)
    ensures
        env::value_of(vars, name) == Some(value) <==> is_set(vars, name, value),
    decreases vars.len(),
{
    if vars.len() > 0 {
        let rest = vars.drop_first();
        if vars.first().0@ == name {
            if is_set(vars, name, value) {
                let k = choose|k: int|
                    0 <= k < vars.len() && (#[trigger] vars[k]).0@ == name && vars[k].1@ == value
                        && forall|j: int| 0 <= j < k ==> (#[trigger] vars[j]).0@ != name;
                if k > 0 {
                    assert(vars[0].0@ != name);
                }
            }
            if env::value_of(vars, name) == Some(value) {
                assert(vars[0].0@ == name && vars[0].1@ == value);
            }
        } else {
            lemma_value(rest, name, value);
            if is_set(vars, name, value) {
                let k = choose|k: int|
                    0 <= k < vars.len() && (#[trigger] vars[k]).0@ == name && vars[k].1@ == value
                        && forall|j: int| 0 <= j < k ==> (#[trigger] vars[j]).0@ != name;
                assert(rest[k - 1] == vars[k]);
                assert forall|j: int| 0 <= j < k - 1 implies (#[trigger] rest[j]).0@ != name by {
                    assert(rest[j] == vars[j + 1]);
                }
            }
            if is_set(rest, name, value) {
                let k = choose|k: int|
                    0 <= k < rest.len() && (#[trigger] rest[k]).0@ == name && rest[k].1@ == value
                        && forall|j: int| 0 <= j < k ==> (#[trigger] rest[j]).0@ != name;
                assert(vars[k + 1] == rest[k]);
                assert forall|j: int| 0 <= j < k + 1 implies (#[trigger] vars[j]).0@ != name by {
                    if j > 0 {
                        assert(rest[j - 1] == vars[j]);
                    }
                }
            }
        }
    }
}

/// A proxy is reported exactly where one of the six variables holds it and is not
/// empty.
pub proof fn law_proxies(vars: Seq<(String, String)>, name: Seq<char>, value: Seq<char>)
    ensures
        env::proxies_of(vars, env::proxy_names()).contains((name, value)) <==> {
            &&& name == "http_proxy"@ || name == "https_proxy"@ || name == "HTTP_PROXY"@ || name
                == "HTTPS_PROXY"@ || name == "all_proxy"@ || name == "ALL_PROXY"@
            &&& value.len() > 0
            &&& is_set(vars, name, value)
        },
{
    let names = env::proxy_names();
    lemma_proxies(vars, names, name, value);
    lemma_value(vars, name, value);
    if names.contains(name) {
        let k = choose|k: int| 0 <= k < names.len() && names[k] == name;
        assert(k == 0 || k == 1 || k == 2 || k == 3 || k == 4 || k == 5);
    }
    assert(names[0] == "http_proxy"@ && names[1] == "https_proxy"@ && names[2] == "HTTP_PROXY"@
        && names[3] == "HTTPS_PROXY"@ && names[4] == "all_proxy"@ && names[5] == "ALL_PROXY"@);
}

/// Proxies are told in the order of the variables, each by itself: the lower-case ones of
/// HTTP and HTTPS, then the upper-case ones, and those for all traffic last.
pub proof fn law_order_of_proxies(
    vars: Seq<(String, String)>,
    a: Seq<Seq<char>>,
    b: Seq<Seq<char>>,
    name: Seq<char>,
    value: Seq<char>,
)
    requires
        value.len() > 0,
        is_set(vars, name, value),
    ensures
        env::proxies_of(vars, a + b) == env::proxies_of(vars, a) + env::proxies_of(vars, b),
        env::proxies_of(vars, seq![name]) == seq![(name, value)],
        env::proxy_names() == seq![
            "http_proxy"@,
            "https_proxy"@,
            "HTTP_PROXY"@,
            "HTTPS_PROXY"@,
            "all_proxy"@,
            "ALL_PROXY"@,
        ],
    decreases b.len(),
{
    lemma_value(vars, name, value);
    reveal_with_fuel(env::proxies_of, 2);
    assert(seq![name].drop_last() =~= Seq::<Seq<char>>::empty());
    assert(env::proxies_of(vars, seq![name]) =~= seq![(name, value)]);
    if b.len() > 0 {
        law_order_of_proxies(vars, a, b.drop_last(), name, value);
        assert((a + b).drop_last() =~= a + b.drop_last());
        assert(env::proxies_of(vars, a + b) =~= env::proxies_of(vars, a) + env::proxies_of(
            vars,
            b,
        ));
    } else {
        assert(a + b =~= a);
        assert(env::proxies_of(vars, a + b) =~= env::proxies_of(vars, a) + env::proxies_of(
            vars,
            b,
        ));
    }
}

proof fn lemma_proxies(
    vars: Seq<(String, String)>,
    names: Seq<Seq<char>>,
    name: Seq<char>,
    value: Seq<char>,
)
    ensures
        env::proxies_of(vars, names).contains((name, value)) <==> names.contains(name)
            && env::set_value(vars, name) == Some(value),
    decreases names.len(),
{
    let all = env::proxies_of(vars, names);
    if names.len() > 0 {
        let front = names.drop_last();
        let rest = env::proxies_of(vars, front);
        lemma_proxies(vars, front, name, value);
        if front.contains(name) {
            let k = choose|k: int| 0 <= k < front.len() && front[k] == name;
            assert(names[k] == name);
        }
        if names.contains(name) && names.last() != name {
            let k = choose|k: int| 0 <= k < names.len() && names[k] == name;
            assert(front[k] == name);
        }
        if names.last() == name {
            assert(names[names.len() - 1] == name);
        }
        if rest.contains((name, value)) {
            let k = choose|k: int| 0 <= k < rest.len() && rest[k] == (name, value);
            assert(all[k] == rest[k]);
        }
        if all.contains((name, value)) {
            let k = choose|k: int| 0 <= k < all.len() && all[k] == (name, value);
            if k < rest.len() {
                assert(rest[k] == all[k]);
            }
        }
        if env::set_value(vars, names.last()) == Some(value) && names.last() == name {
            assert(all[rest.len() as int] == (name, value));
        }
    }
}

/// The exceptions are those of `no_proxy`, or of `NO_PROXY` where that one is not set
/// or empty.
pub proof fn law_no_proxy(vars: Seq<(String, String)>, value: Seq<char>)
    requires
        value.len() > 0,
    ensures
        is_set(vars, "no_proxy"@, value) ==> env::no_proxy_of(vars) == Some(value),
        is_set(vars, "NO_PROXY"@, value) && (forall|v: Seq<char>|
            v.len() > 0 ==> !#[trigger] is_set(vars, "no_proxy"@, v)) ==> env::no_proxy_of(vars)
            == Some(value),
{
    lemma_value(vars, "no_proxy"@, value);
    lemma_value(vars, "NO_PROXY"@, value);
    match env::set_value(vars, "no_proxy"@) {
        Some(v) => {
            lemma_value(vars, "no_proxy"@, v);
        },
        None => {},
    }
}

} // verus!
