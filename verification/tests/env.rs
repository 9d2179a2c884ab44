//! The environment stage.

use netblame::addr::parse_ip;
use netblame::probe::env::{detect_proxies, find_hosts_override, parse_resolv_conf, run};

#[test]
fn parses_resolv_conf() {
    let content = "# comment\nnameserver 192.168.1.1\nnameserver 8.8.8.8 # inline\nsearch example.local corp.local\noptions ndots:1\n";
    let (ns, search) = parse_resolv_conf(content);
    assert_eq!(ns.len(), 2);
    assert_eq!(ns[0].to_text(), "192.168.1.1");
    assert_eq!(search, vec!["example.local", "corp.local"]);
}

#[test]
fn finds_hosts_override() {
    let content = "127.0.0.1 localhost\n10.0.0.5 example.com www.example.com # note\n";
    assert_eq!(
        find_hosts_override(content, "example.com"),
        Some("10.0.0.5".to_string())
    );
    assert_eq!(find_hosts_override(content, "other.com"), None);
}

#[test]
fn hosts_file_is_read_past_blank_lines() {
    let content = "# top\n\n127.0.0.1 localhost\n\t\n10.0.0.5\tExample.COM\n10.0.0.6 example.com\n";
    assert_eq!(
        find_hosts_override(content, "example.com"),
        Some("10.0.0.5".to_string())
    );
    assert_eq!(find_hosts_override(content, "10.0.0.5"), None);
    assert_eq!(find_hosts_override("10.0.0.5 # example.com", "example.com"), None);
}

#[test]
fn resolv_conf_edges() {
    let content = "nameserver fe80::1%eth0\r\nnameserver nonsense\nnameserver\ndomain a.b\nsearch ; c\n ; nameserver 1.1.1.1\nnameserver 2001:db8::53;x";
    let (ns, search) = parse_resolv_conf(content);
    assert_eq!(
        ns,
        vec![
            parse_ip("fe80::1").unwrap(),
            parse_ip("2001:db8::53").unwrap()
        ]
    );
    assert_eq!(search, vec!["a.b"]);
    assert_eq!(parse_resolv_conf("").0, vec![]);
}

fn vars(list: &[(&str, &str)]) -> Vec<(String, String)> {
    list.iter()
        .map(|(k, v)| (k.to_string(), v.to_string()))
        .collect()
}

#[test]
fn proxies_are_detected_in_order() {
    let (proxies, no_proxy) = detect_proxies(&vars(&[
        ("ALL_PROXY", "socks5://p"),
        ("HTTPS_PROXY", ""),
        ("http_proxy", "http://p:1"),
        ("NO_PROXY", "localhost"),
        ("no_proxy", ""),
    ]));
    assert_eq!(
        proxies,
        vars(&[("http_proxy", "http://p:1"), ("ALL_PROXY", "socks5://p")])
    );
    assert_eq!(no_proxy, Some("localhost".to_string()));
    assert_eq!(detect_proxies(&[]), (vec![], None));
}

#[test]
fn environment_stage() {
    let r = run(
        "db.local",
        "nameserver 127.0.0.53\n",
        "10.1.1.1 db.local\n",
        &vars(&[("no_proxy", "a"), ("NO_PROXY", "b")]),
    );
    assert_eq!(r.nameservers, vec![parse_ip("127.0.0.53").unwrap()]);
    assert!(r.search_domains.is_empty());
    assert_eq!(r.hosts_override, Some("10.1.1.1".to_string()));
    assert!(r.proxies.is_empty());
    assert_eq!(r.no_proxy, Some("a".to_string()));
}
