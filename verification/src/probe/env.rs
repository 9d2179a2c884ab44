//! Environment: what `/etc/resolv.conf`, `/etc/hosts` and the proxy variables say.

pub mod laws;

use crate::addr;
use crate::addr::IpAddr;
use crate::report::EnvReport;
use crate::text;
use vstd::prelude::*;
use vstd::slice::slice_subrange;

verus! {

/// A line of `resolv.conf` without its comment.
pub open spec fn uncommented(line: Seq<char>) -> Seq<char> {
    text::before(text::before(line, '#'), ';')
}

/// The name server that the words of a line name. The scope of an IPv6 address is
/// dropped, and a word that is no address names none.
pub open spec fn line_server(words: Seq<Seq<char>>) -> Seq<IpAddr> {
    if words.len() >= 2 && words[0] == "nameserver"@ {
        match addr::ip_of(text::before(words[1], '%')) {
            Some(ip) => seq![ip],
            None => Seq::empty(),
        }
    } else {
        Seq::empty()
    }
}

/// The search domains that the words of a line name.
pub open spec fn line_domains(words: Seq<Seq<char>>) -> Seq<Seq<char>> {
    if words.len() >= 1 && (words[0] == "search"@ || words[0] == "domain"@) {
        words.skip(1)
    } else {
        Seq::empty()
    }
}

/// The name servers of these lines, in order.
pub open spec fn servers_of(lines: Seq<Seq<char>>) -> Seq<IpAddr>
    decreases lines.len(),
{
    if lines.len() == 0 {
        Seq::empty()
    } else {
        servers_of(lines.drop_last()) + line_server(text::words(uncommented(lines.last())))
    }
}

/// The search domains of these lines, in order.
pub open spec fn domains_of(lines: Seq<Seq<char>>) -> Seq<Seq<char>>
    decreases lines.len(),
{
    if lines.len() == 0 {
        Seq::empty()
    } else {
        domains_of(lines.drop_last()) + line_domains(text::words(uncommented(lines.last())))
    }
}

/// The part of `s` before the first `c`.
fn cut(s: &[char], c: char) -> (r: &[char])
    ensures
        r@ == text::before(s@, c),
{
    let k = text::find(s, c);
    let r = slice_subrange(s, 0, k);
    assert(r@ == s@.take(k as int));
    r
}

fn read_server(words: &[String]) -> (r: Option<IpAddr>)
    ensures
        line_server(text::texts(words@)) == match r {
            Some(ip) => seq![ip],
            None => Seq::empty(),
        },
{
    let ghost w = text::texts(words@);
    assert(w.len() == words@.len());
    if words.len() < 2 {
        return None;
    }
    assert(w[0] == words@[0]@ && w[1] == words@[1]@);
    if !text::same_text(words[0].as_str(), "nameserver") {
        return None;
    }
    let chars = text::chars_of(words[1].as_str());
    addr::read_ip(cut(chars.as_slice(), '%'))
}

fn add_domains(domains: &mut Vec<String>, words: &[String])
    ensures
        text::texts(final(domains)@) == text::texts(old(domains)@) + line_domains(
            text::texts(words@),
        ),
{
    let ghost w = text::texts(words@);
    let ghost before = text::texts(domains@);
    assert(w.len() == words@.len());
    if words.len() == 0 {
        return;
    }
    assert(w[0] == words@[0]@);
    if !text::same_text(words[0].as_str(), "search") && !text::same_text(
        words[0].as_str(),
        "domain",
    ) {
        return;
    }
    let mut i: usize = 1;
    assert(w.skip(1).take(0) == Seq::<Seq<char>>::empty());
    while i < words.len()
        invariant
            1 <= i <= words.len(),
            w == text::texts(words@),
            text::texts(domains@) == before + w.skip(1).take(i - 1),
        decreases words.len() - i,
    {
        let ghost now = text::texts(domains@);
        let word = words[i].clone();
        domains.push(word);
        assert(text::texts(domains@) == now.push(w[i as int]));
        assert(w.skip(1).take(i as int) == w.skip(1).take(i - 1).push(w[i as int]));
        i = i + 1;
    }
    assert(w.skip(1).take(w.len() - 1) == w.skip(1));
}

/// Reads `resolv.conf`: the name servers and the search domains.
pub fn parse_resolv_conf(content: &str) -> (r: (Vec<IpAddr>, Vec<String>))
    ensures
        r.0@ == servers_of(text::split(content@, '\n')),
        text::texts(r.1@) == domains_of(text::split(content@, '\n')),
{
    let chars = text::chars_of(content);
    let lines = text::split_at_char(chars.as_slice(), '\n');
    let mut servers: Vec<IpAddr> = Vec::new();
    let mut domains: Vec<String> = Vec::new();
    let ghost all = text::split(content@, '\n');
    let mut i: usize = 0;
    assert(text::texts(domains@) == Seq::<Seq<char>>::empty());
    while i < lines.len()
        invariant
            i <= lines@.len(),
            all.len() == lines@.len(),
            forall|j: int| 0 <= j < lines@.len() ==> (#[trigger] lines@[j])@ == all[j],
            servers@ == servers_of(all.take(i as int)),
            text::texts(domains@) == domains_of(all.take(i as int)),
        decreases lines@.len() - i,
    {
        assert(all.take(i + 1).drop_last() == all.take(i as int));
        assert(all.take(i + 1).last() == all[i as int]);
        let line = cut(cut(lines[i].as_slice(), '#'), ';');
        let words = text::split_words(line);
        if let Some(ip) = read_server(words.as_slice()) {
            servers.push(ip);
        }
        add_domains(&mut domains, words.as_slice());
        i = i + 1;
    }
    assert(all.take(all.len() as int) == all);
    (servers, domains)
}

/// The words name this host: one of them after the first is the host, in upper or
/// lower case.
pub open spec fn names_host(words: Seq<Seq<char>>, host: Seq<char>) -> bool {
    exists|i: int|
        1 <= i < words.len() && text::lowered(#[trigger] words[i]) == text::lowered(host)
}

/// The address of the first line that names the host.
pub open spec fn override_of(lines: Seq<Seq<char>>, host: Seq<char>) -> Option<Seq<char>>
    decreases lines.len(),
{
    if lines.len() == 0 {
        None
    } else {
        let words = text::words(text::before(lines.first(), '#'));
        if names_host(words, host) {
            Some(words[0])
        } else {
            override_of(lines.drop_first(), host)
        }
    }
}

fn is_named(words: &[String], host: &[char]) -> (r: bool)
    ensures
        r == names_host(text::texts(words@), host@),
{
    let low = text::to_lower(host);
    let ghost w = text::texts(words@);
    assert(w.len() == words@.len());
    let mut i: usize = 1;
    while i < words.len()
        invariant
            1 <= i,
            w == text::texts(words@),
            w.len() == words@.len(),
            low@ == text::lowered(host@),
            forall|j: int| 1 <= j < i && j < w.len() ==> text::lowered(#[trigger] w[j]) != low@,
        decreases words.len() - i,
    {
        let chars = text::chars_of(words[i].as_str());
        let name = text::to_lower(chars.as_slice());
        assert(w[i as int] == words@[i as int]@);
        if text::same_chars(name.as_slice(), low.as_slice()) {
            return true;
        }
        i = i + 1;
    }
    false
}

/// Finds the address by which `/etc/hosts` overrides a host.
pub fn find_hosts_override(content: &str, host: &str) -> (r: Option<String>)
    ensures
        override_of(text::split(content@, '\n'), host@) == match r {
            Some(ip) => Some(ip@),
            None => None,
        },
{
    let chars = text::chars_of(content);
    let host_chars = text::chars_of(host);
    let lines = text::split_at_char(chars.as_slice(), '\n');
    let ghost all = text::split(content@, '\n');
    let mut i: usize = 0;
    assert(all.skip(0) == all);
    while i < lines.len()
        invariant
            i <= lines@.len(),
            all == text::split(content@, '\n'),
            all.len() == lines@.len(),
            host_chars@ == host@,
            forall|j: int| 0 <= j < lines@.len() ==> (#[trigger] lines@[j])@ == all[j],
            override_of(all, host@) == override_of(all.skip(i as int), host@),
        decreases lines@.len() - i,
    {
        assert(all.skip(i as int).drop_first() == all.skip(i + 1));
        assert(all.skip(i as int).first() == all[i as int]);
        let line = cut(lines[i].as_slice(), '#');
        let words = text::split_words(line);
        if is_named(words.as_slice(), host_chars.as_slice()) {
            assert(text::texts(words@).len() == words@.len());
            assert(text::texts(words@)[0] == words@[0]@);
            return Some(words[0].clone());
        }
        i = i + 1;
    }
    None
}

/// The value of a variable, in a list of names and values.
pub open spec fn value_of(vars: Seq<(String, String)>, name: Seq<char>) -> Option<Seq<char>>
    decreases vars.len(),
{
    if vars.len() == 0 {
        None
    } else if vars.first().0@ == name {
        Some(vars.first().1@)
    } else {
        value_of(vars.drop_first(), name)
    }
}

/// The value of a variable that is set and not empty.
pub open spec fn set_value(vars: Seq<(String, String)>, name: Seq<char>) -> Option<Seq<char>> {
    match value_of(vars, name) {
        Some(v) => if v.len() > 0 {
            Some(v)
        } else {
            None
        },
        None => None,
    }
}

/// The variables that name a proxy, in the order in which they are reported.
pub open spec fn proxy_names() -> Seq<Seq<char>> {
    seq![
        "http_proxy"@,
        "https_proxy"@,
        "HTTP_PROXY"@,
        "HTTPS_PROXY"@,
        "all_proxy"@,
        "ALL_PROXY"@,
    ]
}

/// Those of the variables that are set, with their values.
pub open spec fn proxies_of(vars: Seq<(String, String)>, names: Seq<Seq<char>>) -> Seq<
    (Seq<char>, Seq<char>),
>
    decreases names.len(),
{
    if names.len() == 0 {
        Seq::empty()
    } else {
        let rest = proxies_of(vars, names.drop_last());
        match set_value(vars, names.last()) {
            Some(v) => rest.push((names.last(), v)),
            None => rest,
        }
    }
}

/// The value of `no_proxy`, or else of `NO_PROXY`.
pub open spec fn no_proxy_of(vars: Seq<(String, String)>) -> Option<Seq<char>> {
    match set_value(vars, "no_proxy"@) {
        Some(v) => Some(v),
        None => set_value(vars, "NO_PROXY"@),
    }
}

pub open spec fn pair_views(list: Seq<(String, String)>) -> Seq<(Seq<char>, Seq<char>)> {
    Seq::new(list.len(), |i: int| (list[i].0@, list[i].1@))
}

pub open spec fn text_view(t: Option<String>) -> Option<Seq<char>> {
    match t {
        Some(t) => Some(t@),
        None => None,
    }
}

fn look_up(vars: &[(String, String)], name: &str) -> (r: Option<String>)
    ensures
        text_view(r) == set_value(vars@, name@),
{
    let mut i: usize = 0;
    assert(vars@.skip(0) == vars@);
    while i < vars.len()
        invariant
            i <= vars.len(),
            value_of(vars@, name@) == value_of(vars@.skip(i as int), name@),
        decreases vars.len() - i,
    {
        assert(vars@.skip(i as int).drop_first() == vars@.skip(i + 1));
        assert(vars@.skip(i as int).first() == vars@[i as int]);
        let pair = &vars[i];
        if text::same_text(pair.0.as_str(), name) {
            if text::chars_of(pair.1.as_str()).len() > 0 {
                return Some(pair.1.clone());
            } else {
                return None;
            }
        }
        i = i + 1;
    }
    None
}

/// Detects the proxies that the environment variables name, and the exceptions.
pub fn detect_proxies(vars: &[(String, String)]) -> (r: (Vec<(String, String)>, Option<String>))
    ensures
        pair_views(r.0@) == proxies_of(vars@, proxy_names()),
        text_view(r.1) == no_proxy_of(vars@),
{
    let names: Vec<&'static str> = vec![
        "http_proxy",
        "https_proxy",
        "HTTP_PROXY",
        "HTTPS_PROXY",
        "all_proxy",
        "ALL_PROXY",
    ];
    let ghost all = proxy_names();
    let mut proxies: Vec<(String, String)> = Vec::new();
    let mut i: usize = 0;
    assert(pair_views(proxies@) == Seq::<(Seq<char>, Seq<char>)>::empty());
    while i < names.len()
        invariant
            i <= names@.len(),
            all == proxy_names(),
            all.len() == names@.len(),
            forall|j: int| 0 <= j < names@.len() ==> (#[trigger] names@[j])@ == all[j],
            pair_views(proxies@) == proxies_of(vars@, all.take(i as int)),
        decreases names@.len() - i,
    {
        assert(all.take(i + 1).drop_last() == all.take(i as int));
        assert(all.take(i + 1).last() == all[i as int]);
        if let Some(v) = look_up(vars, names[i]) {
            let ghost now = pair_views(proxies@);
            let name = names[i].to_owned();
            proxies.push((name, v));
            assert(pair_views(proxies@) == now.push((name@, v@)));
        }
        i = i + 1;
    }
    assert(all.take(all.len() as int) == all);
    let no_proxy = match look_up(vars, "no_proxy") {
        Some(v) => Some(v),
        None => look_up(vars, "NO_PROXY"),
    };
    (proxies, no_proxy)
}

/// The environment stage, given the contents of the two files and the environment
/// variables.
pub fn run(host: &str, resolv: &str, hosts: &str, vars: &[(String, String)]) -> (r: EnvReport)
    ensures
        r.nameservers@ == servers_of(text::split(resolv@, '\n')),
        text::texts(r.search_domains@) == domains_of(text::split(resolv@, '\n')),
        text_view(r.hosts_override) == override_of(text::split(hosts@, '\n'), host@),
        pair_views(r.proxies@) == proxies_of(vars@, proxy_names()),
        text_view(r.no_proxy) == no_proxy_of(vars@),
{
    let (nameservers, search_domains) = parse_resolv_conf(resolv);
    let hosts_override = find_hosts_override(hosts, host);
    let (proxies, no_proxy) = detect_proxies(vars);
    EnvReport { nameservers, search_domains, hosts_override, proxies, no_proxy }
}

} // verus!
