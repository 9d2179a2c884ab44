//! Targets.

use netblame::diagnose::request_url;
use netblame::target::parse_target;
use netblame::ParseError;

#[test]
fn parse_https_url() {
    let t = parse_target("https://example.com/path?q=1").unwrap();
    assert_eq!(t.host, "example.com");
    assert_eq!(t.port, 443);
    assert!(t.use_tls);
    assert!(t.do_http);
    assert_eq!(t.path, "/path?q=1");
}

#[test]
fn parse_http_url_with_port() {
    let t = parse_target("http://example.com:8080").unwrap();
    assert_eq!(t.port, 8080);
    assert!(!t.use_tls);
    assert!(t.do_http);
}

#[test]
fn parse_bare_host() {
    let t = parse_target("example.com").unwrap();
    assert_eq!(t.port, 443);
    assert!(t.use_tls);
    assert!(t.do_http);
}

#[test]
fn parse_host_port_plain_tcp() {
    let t = parse_target("example.com:81").unwrap();
    assert_eq!(t.port, 81);
    assert!(!t.use_tls);
    assert!(!t.do_http);
}

#[test]
fn parse_ipv6_literal() {
    let t = parse_target("[2606:2800::1]:8443").unwrap();
    assert_eq!(t.host, "2606:2800::1");
    assert_eq!(t.port, 8443);
}

#[test]
fn parse_bad_scheme() {
    assert!(matches!(
        parse_target("ftp://example.com"),
        Err(ParseError::UnsupportedScheme(_))
    ));
}

#[test]
fn parse_other_errors() {
    assert_eq!(parse_target("").unwrap_err(), ParseError::EmptyHost);
    assert_eq!(parse_target("https:///x").unwrap_err(), ParseError::EmptyHost);
    assert_eq!(parse_target("[::1").unwrap_err(), ParseError::UnclosedIpv6);
    assert_eq!(
        parse_target("example.com:99999").unwrap_err(),
        ParseError::InvalidPort("99999".into())
    );
    assert_eq!(
        parse_target("[::1]:x").unwrap_err(),
        ParseError::InvalidPort("x".into())
    );
    assert_eq!(
        parse_target("example.com:").unwrap_err(),
        ParseError::InvalidPort("".into())
    );
}

#[test]
fn parse_special_ports() {
    let t = parse_target("example.com:443").unwrap();
    assert!(t.use_tls && t.do_http);
    let t = parse_target("example.com:80").unwrap();
    assert!(!t.use_tls && t.do_http);
    assert_eq!(parse_target("example.com:+0081").unwrap().port, 81);
    let t = parse_target("::1").unwrap();
    assert_eq!(t.host, "::1");
    assert_eq!(t.port, 443);
}

#[test]
fn request_urls() {
    let url = |raw: &str| request_url(&parse_target(raw).unwrap());
    assert_eq!(url("example.com"), "https://example.com/");
    assert_eq!(url("http://example.com:80/a"), "http://example.com/a");
    assert_eq!(url("https://example.com:8443"), "https://example.com:8443/");
    assert_eq!(url("[2606:2800::1]"), "https://[2606:2800::1]/");
    assert_eq!(url("http://[::1]:8080/x"), "http://[::1]:8080/x");
}

#[test]
fn given_url_is_requested() {
    for url in [
        "https://example.com/path?q=1",
        "http://example.com/",
        "https://192.0.2.1/a/b",
    ] {
        let t = parse_target(url).unwrap();
        assert_eq!(request_url(&t), url);
    }
}
