//! Addresses: reading, writing, order.

use netblame::addr::{parse_ip, sort_ips, IpAddr};

fn shown(s: &str) -> Option<String> {
    parse_ip(s).map(|ip| ip.to_text())
}

#[test]
fn v4_addresses() {
    assert_eq!(parse_ip("192.0.2.1"), Some(IpAddr::V4(192, 0, 2, 1)));
    assert_eq!(shown("255.255.255.255"), Some("255.255.255.255".into()));
    for bad in ["", "1.2.3", "1.2.3.4.5", "256.0.0.1", "01.2.3.4", "1.2.3.4 ", "1..2.3", "+1.2.3.4"]
    {
        assert_eq!(parse_ip(bad), None, "{bad}");
    }
}

#[test]
fn v6_addresses() {
    assert_eq!(
        parse_ip("2001:db8::1"),
        Some(IpAddr::V6(0x2001, 0xdb8, 0, 0, 0, 0, 0, 1))
    );
    for (text, canonical) in [
        ("::", "::"),
        ("::1", "::1"),
        ("1::", "1::"),
        ("2001:DB8:0:0:1:0:0:1", "2001:db8::1:0:0:1"),
        ("2001:db8:0:1:1:1:1:1", "2001:db8:0:1:1:1:1:1"),
        ("1:2:3:4:5:6:7:8", "1:2:3:4:5:6:7:8"),
        ("1:2:3:4:5:6:7::", "1:2:3:4:5:6:7:0"),
        ("::ffff:192.0.2.1", "::ffff:192.0.2.1"),
        ("::ffff:c000:201", "::ffff:192.0.2.1"),
        ("64:ff9b::192.0.2.33", "64:ff9b::c000:221"),
        ("fe80::0001", "fe80::1"),
        ("0:0:1:0:0:0:0:1", "0:0:1::1"),
    ] {
        assert_eq!(shown(text), Some(canonical.to_string()), "{text}");
        assert_eq!(parse_ip(text), parse_ip(canonical));
    }
    for bad in [
        ":", ":::", "1:2:3:4:5:6:7", "1:2:3:4:5:6:7:8:9", "1::2::3", "12345::", "g::", "fe80::1%eth0",
        "::1.2.3", "1.2.3.4::", "[::1]", "1:2:3:4:5:6:7:8::",
    ] {
        assert_eq!(parse_ip(bad), None, "{bad}");
    }
}

#[test]
fn addresses_are_sorted_without_repeats() {
    let ip = |s: &str| parse_ip(s).unwrap();
    let list = [ip("::1"), ip("10.0.0.10"), ip("10.0.0.9"), ip("::1"), ip("9.255.0.0")];
    assert_eq!(
        sort_ips(&list),
        vec![ip("9.255.0.0"), ip("10.0.0.9"), ip("10.0.0.10"), ip("::1")]
    );
}
