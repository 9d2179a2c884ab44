//! The path trace: its analysis, the search for hops and the MTU probe.

use netblame::addr::{parse_ip, IpAddr};
use netblame::i18n::Lang;
use netblame::measure::Millis;
use netblame::probe::trace::errqueue::{
    classify, parse_sockaddr, read_offender, to_event, ErrEvent, ErrKind, ErrRecord,
};
use netblame::probe::trace::hops::{HopAction, HopSearch, BASE_PORT};
use netblame::probe::trace::mtu::{feedback, kernel_mtu, MtuSearch};
use netblame::probe::trace::{
    analyze_mtu, conclude, gather, localize_failure, HopZone, TraceEnd,
};
use netblame::report::{MtuProbe, MtuProbeOutcome, TraceHop, TraceReport};

fn ip(s: &str) -> IpAddr {
    parse_ip(s).unwrap()
}

fn probe(size: u16, outcome: MtuProbeOutcome) -> MtuProbe {
    MtuProbe { size, outcome }
}

fn hop(index: u8, addr: Option<&str>, rtt: Option<f64>) -> TraceHop {
    TraceHop {
        index,
        addr: addr.map(ip),
        rtt_ms: rtt.map(|v| Millis {
            nanos: (v * 1_000_000.0) as u64,
        }),
    }
}

#[test]
fn mtu_healthy_1500() {
    let probes = vec![
        probe(1500, MtuProbeOutcome::Delivered),
        probe(1472, MtuProbeOutcome::Delivered),
    ];
    let a = analyze_mtu(Some(1500), &probes);
    assert_eq!(a.path_mtu, Some(1500));
    assert!(!a.blackhole);
}

#[test]
fn mtu_blackhole_silent_oversize() {
    let probes = vec![
        probe(1500, MtuProbeOutcome::Silent),
        probe(1472, MtuProbeOutcome::Silent),
        probe(1400, MtuProbeOutcome::Silent),
        probe(1280, MtuProbeOutcome::Delivered),
        probe(1024, MtuProbeOutcome::Delivered),
    ];
    let a = analyze_mtu(Some(1500), &probes);
    assert_eq!(a.path_mtu, Some(1280));
    assert!(a.blackhole);
}

#[test]
fn mtu_pmtud_working_is_not_blackhole() {
    let probes = vec![
        probe(1500, MtuProbeOutcome::FragNeeded { mtu: Some(1400) }),
        probe(1400, MtuProbeOutcome::Delivered),
    ];
    let a = analyze_mtu(Some(1500), &probes);
    assert_eq!(a.path_mtu, Some(1400));
    assert!(!a.blackhole);
}

#[test]
fn mtu_kernel_route_narrow_and_silent() {
    let probes = vec![
        probe(1500, MtuProbeOutcome::Silent),
        probe(1472, MtuProbeOutcome::Silent),
    ];
    let a = analyze_mtu(Some(1400), &probes);
    assert_eq!(a.path_mtu, Some(1400));
    assert!(a.blackhole);
}

#[test]
fn mtu_rate_limited_replies_not_blackhole() {
    let probes = vec![
        probe(1400, MtuProbeOutcome::Delivered),
        probe(1280, MtuProbeOutcome::Silent),
    ];
    let a = analyze_mtu(Some(1500), &probes);
    assert_eq!(a.path_mtu, Some(1400));
    assert!(!a.blackhole);
}

#[test]
fn mtu_no_data() {
    let a = analyze_mtu(None, &[]);
    assert_eq!(a.path_mtu, None);
    assert!(!a.blackhole);
}

#[test]
fn localize_early_failure_is_home() {
    let hops = vec![
        hop(1, Some("192.168.1.1"), Some(1.2)),
        hop(2, None, None),
        hop(3, None, None),
    ];
    let l = localize_failure(&hops, false).unwrap();
    assert_eq!(l.last_index, 1);
    assert_eq!(l.zone, HopZone::Home);
    assert_eq!(l.path_len_estimate, 3);
}

#[test]
fn localize_mid_failure_is_isp() {
    let hops = vec![
        hop(1, Some("192.168.1.1"), Some(1.0)),
        hop(2, Some("10.0.0.1"), Some(5.0)),
        hop(3, Some("100.64.0.1"), Some(8.0)),
        hop(4, Some("203.0.113.1"), Some(9.0)),
        hop(5, None, None),
        hop(6, None, None),
    ];
    let l = localize_failure(&hops, false).unwrap();
    assert_eq!(l.last_index, 4);
    assert_eq!(l.last_hop, ip("203.0.113.1"));
    assert_eq!(l.zone, HopZone::Isp);
}

#[test]
fn localize_late_failure_is_far_side() {
    let mut hops: Vec<TraceHop> = (1..=12)
        .map(|i| hop(i, Some("198.51.100.7"), Some(20.0)))
        .collect();
    hops.push(hop(13, None, None));
    hops.push(hop(14, None, None));
    let l = localize_failure(&hops, false).unwrap();
    assert_eq!(l.last_index, 12);
    assert_eq!(l.zone, HopZone::FarSide);
    assert_eq!(l.path_len_estimate, 14);
}

#[test]
fn localize_dest_reached_uses_dest_index() {
    let hops = vec![
        hop(1, Some("192.168.1.1"), Some(1.0)),
        hop(2, Some("10.0.0.1"), Some(5.0)),
        hop(3, Some("93.184.216.34"), Some(12.0)),
    ];
    let l = localize_failure(&hops, true).unwrap();
    assert_eq!(l.last_index, 3);
    assert_eq!(l.path_len_estimate, 3);
}

#[test]
fn localize_no_replies_is_none() {
    let hops = vec![hop(1, None, None), hop(2, None, None)];
    assert!(localize_failure(&hops, false).is_none());
}

// ── The error queue ─────────────────────────────────────────────────────

fn record(origin: u8, kind: u8, code: u8) -> ErrRecord {
    ErrRecord {
        errno: 0,
        origin,
        kind,
        code,
        info: 0,
    }
}

#[test]
fn records_are_classified() {
    assert_eq!(classify(&record(2, 11, 0)), ErrKind::TimeExceeded);
    assert_eq!(classify(&record(2, 3, 3)), ErrKind::PortUnreachable);
    assert_eq!(classify(&record(2, 3, 4)), ErrKind::FragNeeded);
    assert_eq!(classify(&record(2, 3, 13)), ErrKind::Unreachable);
    assert_eq!(classify(&record(2, 8, 0)), ErrKind::Other);
    assert_eq!(classify(&record(3, 3, 0)), ErrKind::TimeExceeded);
    assert_eq!(classify(&record(3, 2, 0)), ErrKind::FragNeeded);
    assert_eq!(classify(&record(3, 1, 4)), ErrKind::PortUnreachable);
    assert_eq!(classify(&record(3, 1, 0)), ErrKind::Unreachable);
    assert_eq!(classify(&record(3, 128, 0)), ErrKind::Other);
    let mut local = record(1, 0, 0);
    assert_eq!(classify(&local), ErrKind::Other);
    local.errno = 90;
    assert_eq!(classify(&local), ErrKind::LocalEmsgsize);
}

#[test]
fn socket_addresses_are_read() {
    let v4 = [0x82u8, 0x9b, 192, 168, 1, 1, 0, 0, 0, 0, 0, 0, 0, 0];
    assert_eq!(parse_sockaddr(2, &v4), Some((ip("192.168.1.1"), 33435)));
    let mut v6 = vec![0x82u8, 0x9b, 0, 0, 0, 0];
    v6.extend([0x20, 0x01, 0x0d, 0xb8, 0, 0, 0, 0, 0, 0, 0, 0, 0, 0, 0, 1]);
    assert_eq!(parse_sockaddr(10, &v6), Some((ip("2001:db8::1"), 33435)));
    assert_eq!(parse_sockaddr(1, &v4), None);
    assert_eq!(parse_sockaddr(2, &v4[..5]), None);
    // Four bytes of scope are missing.
    assert_eq!(read_offender(true, 10, &v6), None);
    v6.extend([0, 0, 0, 0]);
    assert_eq!(read_offender(true, 10, &v6), Some(ip("2001:db8::1")));
    assert_eq!(read_offender(false, 2, &v4), Some(ip("192.168.1.1")));
}

#[test]
fn only_messages_of_the_network_have_a_sender() {
    let sender = Some(ip("10.0.0.1"));
    let ev = to_event(&record(2, 11, 0), sender, Some(33436));
    assert_eq!(ev.offender, sender);
    assert_eq!(ev.dest_port, Some(33436));
    assert_eq!(to_event(&record(1, 0, 0), sender, None).offender, None);
}

// ── The search for hops ─────────────────────────────────────────────────

fn reply(kind: ErrKind, from: &str, ttl: u16) -> ErrEvent {
    ErrEvent {
        kind,
        offender: Some(ip(from)),
        dest_port: Some(BASE_PORT + ttl),
        info: 0,
    }
}

#[test]
fn search_walks_to_the_destination() {
    let mut s = HopSearch::new(ip("93.184.216.34"));
    assert_eq!(
        s.action(),
        HopAction::Send {
            ttl: 1,
            port: 33435
        }
    );
    s.sent(1_000_000, true);
    assert_eq!(s.action(), HopAction::Wait);
    s.reply(&reply(ErrKind::TimeExceeded, "192.168.1.1", 1), 3_000_000);
    assert_eq!(
        s.action(),
        HopAction::Send {
            ttl: 2,
            port: 33436
        }
    );
    s.sent(4_000_000, true);
    s.reply(&reply(ErrKind::PortUnreachable, "93.184.216.34", 2), 9_000_000);
    assert_eq!(s.action(), HopAction::Finish);
    let (hops, reached) = s.into_hops();
    assert!(reached);
    assert_eq!(
        hops,
        vec![
            hop(1, Some("192.168.1.1"), Some(2.0)),
            hop(2, Some("93.184.216.34"), Some(5.0)),
        ]
    );
}

#[test]
fn late_reply_fills_a_blank_only() {
    let mut s = HopSearch::new(ip("93.184.216.34"));
    for _ in 0..2 {
        s.sent(1_000_000, true);
        s.timed_out();
    }
    assert_eq!(
        s.action(),
        HopAction::Send {
            ttl: 2,
            port: 33436
        }
    );
    s.sent(2_000_000, true);
    s.reply(&reply(ErrKind::TimeExceeded, "192.168.1.1", 1), 4_000_000);
    // A second late reply finds the place taken, and one for a foreign port is ignored.
    s.reply(&reply(ErrKind::TimeExceeded, "192.168.1.2", 1), 5_000_000);
    s.reply(&reply(ErrKind::TimeExceeded, "192.168.1.3", 31), 5_000_000);
    assert_eq!(s.action(), HopAction::Wait);
    s.reply(&reply(ErrKind::Unreachable, "10.0.0.1", 2), 6_000_000);
    assert_eq!(s.action(), HopAction::Finish);
    let (hops, reached) = s.into_hops();
    assert!(!reached);
    assert_eq!(
        hops,
        vec![
            hop(1, Some("192.168.1.1"), Some(3.0)),
            hop(2, Some("10.0.0.1"), Some(4.0)),
        ]
    );
}

#[test]
fn eight_silent_hops_end_the_search() {
    let mut s = HopSearch::new(ip("93.184.216.34"));
    let mut sends = 0;
    loop {
        match s.action() {
            HopAction::Send { .. } => {
                sends += 1;
                s.sent(sends, true);
            }
            HopAction::Wait => s.timed_out(),
            HopAction::Finish => break,
        }
    }
    assert_eq!(sends, 16);
    let (hops, reached) = s.into_hops();
    assert!(!reached);
    assert_eq!(hops.len(), 8);
    assert!(hops.iter().all(|h| h.addr.is_none()));
}

#[test]
fn search_stops_after_thirty_hops() {
    let mut s = HopSearch::new(ip("93.184.216.34"));
    loop {
        match s.action() {
            HopAction::Send { ttl, .. } => {
                s.sent(0, true);
                s.reply(&reply(ErrKind::TimeExceeded, "10.0.0.1", u16::from(ttl)), 0);
            }
            HopAction::Wait => unreachable!(),
            HopAction::Finish => break,
        }
    }
    assert_eq!(s.into_hops().0.len(), 30);
}

#[test]
fn datagram_that_cannot_be_sent_is_not_waited_for() {
    let mut s = HopSearch::new(ip("2001:db8::1"));
    s.sent(0, false);
    assert_eq!(
        s.action(),
        HopAction::Send {
            ttl: 1,
            port: 33435
        }
    );
    s.sent(0, false);
    assert_eq!(
        s.action(),
        HopAction::Send {
            ttl: 2,
            port: 33436
        }
    );
}

// ── The MTU probe ───────────────────────────────────────────────────────

fn event(kind: ErrKind, info: u32) -> ErrEvent {
    ErrEvent {
        kind,
        offender: None,
        dest_port: None,
        info,
    }
}

#[test]
fn mtu_feedback_is_read() {
    assert_eq!(
        feedback(&event(ErrKind::FragNeeded, 1400)),
        Some(MtuProbeOutcome::FragNeeded { mtu: Some(1400) })
    );
    assert_eq!(
        feedback(&event(ErrKind::FragNeeded, 0)),
        Some(MtuProbeOutcome::FragNeeded { mtu: None })
    );
    assert_eq!(
        feedback(&event(ErrKind::PortUnreachable, 0)),
        Some(MtuProbeOutcome::Delivered)
    );
    assert_eq!(
        feedback(&event(ErrKind::LocalEmsgsize, 0)),
        Some(MtuProbeOutcome::LocalError)
    );
    assert_eq!(feedback(&event(ErrKind::TimeExceeded, 0)), None);
}

#[test]
fn mtu_sizes_are_tried_from_large_to_small() {
    let mut s = MtuSearch::new(false);
    let mut payloads = vec![];
    while let Some(len) = s.next_payload() {
        payloads.push(len);
        s.record(MtuProbeOutcome::Silent);
    }
    assert_eq!(payloads, vec![1472, 1444, 1372, 1252, 996]);
    let sizes: Vec<u16> = s.into_probes().iter().map(|p| p.size).collect();
    assert_eq!(sizes, vec![1500, 1472, 1400, 1280, 1024]);
    assert_eq!(MtuSearch::new(true).next_payload(), Some(1452));
}

#[test]
fn kernel_mtu_prefers_the_later_value() {
    assert_eq!(kernel_mtu(Some(1500), Some(1400)), Some(1400));
    assert_eq!(kernel_mtu(Some(1500), None), Some(1500));
    assert_eq!(kernel_mtu(None, Some(65536)), None);
    assert_eq!(kernel_mtu(Some(1500), Some(-1)), None);
    assert_eq!(kernel_mtu(None, None), None);
}

#[test]
fn trace_results_are_concluded() {
    let data = gather(HopSearch::new(ip("1.2.3.4")), None);
    assert!(data.hops.is_empty() && data.mtu_probes.is_empty() && data.kernel_mtu.is_none());
    let mut m = MtuSearch::new(false);
    m.record(MtuProbeOutcome::Delivered);
    let data = gather(HopSearch::new(ip("1.2.3.4")), Some((m, Some(1500))));
    assert_eq!(data.kernel_mtu, Some(1500));
    assert_eq!(data.mtu_probes.len(), 1);
    assert!(matches!(
        conclude(TraceEnd::Done(data), Lang::En),
        TraceReport::Ran(_)
    ));
    match conclude(TraceEnd::TimedOut, Lang::En) {
        TraceReport::Failed(e) => assert_eq!(e, "the path trace timed out"),
        _ => panic!(),
    }
    match conclude(TraceEnd::Failed("no socket".into()), Lang::Ja) {
        TraceReport::Failed(e) => assert_eq!(e, "no socket"),
        _ => panic!(),
    }
}
