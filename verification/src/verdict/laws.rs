//! What holds of every verdict.

use crate::report::{QuicReport, Report};
use crate::verdict;
use crate::verdict::rules;
use crate::verdict::summary;
use crate::verdict::{Culprit, FindingView, Headline};
use vstd::prelude::*;

verus! {

/// The culprit that a verdict line names.
pub open spec fn named(h: Headline) -> Culprit {
    match h {
        Headline::NameDoesNotExist { .. } => Culprit::NameDoesNotExist,
        Headline::LocalDnsBroken => Culprit::LocalDnsBroken,
        Headline::LocalDnsSlow => Culprit::LocalDnsSlow,
        Headline::OutboundDead => Culprit::TcpBlocked,
        Headline::DnsAnswerMismatch => Culprit::DnsAnswerMismatch,
        Headline::ServerDown { .. } => Culprit::ServerDown,
        Headline::TcpBlocked { .. } => Culprit::TcpBlocked,
        Headline::Ipv6Broken => Culprit::Ipv6Broken,
        Headline::TlsCertExpired => Culprit::TlsCertExpired,
        Headline::TlsIntercepted => Culprit::TlsIntercepted,
        Headline::TlsCertInvalid => Culprit::TlsCertInvalid,
        Headline::ProxyInterference => Culprit::ProxyInterference,
        Headline::ServerSlow => Culprit::ServerSlow,
        Headline::UnstablePath => Culprit::UnstablePath,
        Headline::PmtuBlackhole => Culprit::PmtuBlackhole,
        Headline::Udp443Blocked => Culprit::Udp443Blocked,
        Headline::NoProblem => Culprit::NoProblem,
    }
}

/// The verdict line names the culprit of the verdict.
pub proof fn law_headline_names_the_culprit(r: Report)
    ensures
        named(verdict::judgement(r).headline) == verdict::judgement(r).culprit,
{
}

/// The length of a culprit's name, and two of its characters.
spec fn mark(c: Culprit) -> (nat, char, char) {
    match c {
        Culprit::LocalDnsBroken => (16, 'l', '_'),
        Culprit::LocalDnsSlow => (14, 'l', '_'),
        Culprit::DnsAnswerMismatch => (19, 'd', 'r'),
        Culprit::NameDoesNotExist => (19, 'n', '_'),
        Culprit::TcpBlocked => (11, 't', 'e'),
        Culprit::Ipv6Broken => (11, 'i', 'e'),
        Culprit::TlsCertExpired => (16, 't', 'e'),
        Culprit::TlsCertInvalid => (16, 't', 'i'),
        Culprit::TlsIntercepted => (15, 't', 'c'),
        Culprit::ProxyInterference => (18, 'p', 'e'),
        Culprit::UnstablePath => (13, 'u', 'p'),
        Culprit::PmtuBlackhole => (14, 'p', 'k'),
        Culprit::Udp443Blocked => (14, 'u', 'o'),
        Culprit::ServerSlow => (11, 's', 'o'),
        Culprit::ServerDown => (11, 's', 'w'),
        Culprit::NoProblem => (10, 'n', 'm'),
    }
}

proof fn lemma_mark(c: Culprit)
    ensures
        mark(c) == (c.name().len(), c.name()[0], c.name()[9]),
{
    reveal_strlit("local_dns_broken");
    reveal_strlit("local_dns_slow");
    reveal_strlit("dns_answer_mismatch");
    reveal_strlit("name_does_not_exist");
    reveal_strlit("tcp_blocked");
    reveal_strlit("ipv6_broken");
    reveal_strlit("tls_cert_expired");
    reveal_strlit("tls_cert_invalid");
    reveal_strlit("tls_intercepted");
    reveal_strlit("proxy_interference");
    reveal_strlit("unstable_path");
    reveal_strlit("pmtu_blackhole");
    reveal_strlit("udp443_blocked");
    reveal_strlit("server_slow");
    reveal_strlit("server_down");
    reveal_strlit("no_problem");
}

/// The machine-readable name of a culprit tells it apart from every other one.
pub proof fn law_names_tell_culprits_apart(a: Culprit, b: Culprit)
    requires
        a.name() == b.name(),
    ensures
        a == b,
{
    lemma_mark(a);
    lemma_mark(b);
}

/// Every verdict gives its grounds.
pub proof fn law_evidence_is_never_empty(r: Report)
    ensures
        verdict::judgement(r).evidence.len() > 0,
{
}

/// The rules in the order of their priority: culprit and whether the rule
/// applies.
pub open spec fn priorities(r: Report) -> Seq<(Culprit, bool)> {
    seq![
        (Culprit::NameDoesNotExist, rules::name_missing(r)),
        (Culprit::LocalDnsBroken, rules::local_dns_dead(r)),
        (Culprit::TcpBlocked, rules::dns_dead(r)),
        (Culprit::DnsAnswerMismatch, rules::answers_mismatch(r)),
        (Culprit::ServerDown, summary::all_refused(r.tcp.probes@)),
        (Culprit::TcpBlocked, summary::all_fail(r.tcp.probes@)),
        (Culprit::Ipv6Broken, rules::ipv6_dead(r)),
        (Culprit::TlsCertExpired, rules::cert_expired(r)),
        (Culprit::TlsIntercepted, rules::tls_intercepted(r)),
        (Culprit::TlsCertInvalid, rules::tls_error(r)),
        (Culprit::ProxyInterference, rules::proxy_fault(r)),
        (Culprit::ServerSlow, rules::server_slow(r)),
        (Culprit::UnstablePath, rules::lossy(r) || rules::jittery(r)),
        (Culprit::PmtuBlackhole, rules::large_packets_vanish(r)),
        (Culprit::LocalDnsSlow, rules::local_dns_slow(r)),
        (Culprit::Udp443Blocked, rules::udp443_blocked(r)),
        (Culprit::NoProblem, true),
    ]
}

/// The first rule that applies names the culprit.
pub proof fn law_first_rule_wins(r: Report, k: int)
    requires
        0 <= k < priorities(r).len(),
        priorities(r)[k].1,
        forall|i: int| 0 <= i < k ==> !(#[trigger] priorities(r)[i]).1,
    ensures
        verdict::judgement(r).culprit == priorities(r)[k].0,
{
    let p = priorities(r);
    assert(p[0].1 == rules::name_missing(r));
    assert(p[1].1 == rules::local_dns_dead(r));
    assert(p[2].1 == rules::dns_dead(r));
    assert(p[3].1 == rules::answers_mismatch(r));
    assert(p[4].1 == summary::all_refused(r.tcp.probes@));
    assert(p[5].1 == summary::all_fail(r.tcp.probes@));
    assert(p[6].1 == rules::ipv6_dead(r));
    assert(p[7].1 == rules::cert_expired(r));
    assert(p[8].1 == rules::tls_intercepted(r));
    assert(p[9].1 == rules::tls_error(r));
    assert(p[10].1 == rules::proxy_fault(r));
    assert(p[11].1 == rules::server_slow(r));
    assert(p[12].1 == (rules::lossy(r) || rules::jittery(r)));
    assert(p[13].1 == rules::large_packets_vanish(r));
    assert(p[14].1 == rules::local_dns_slow(r));
    assert(p[15].1 == rules::udp443_blocked(r));
    assert(p[16].1);
}

/// No problem is reported exactly where no rule applies.
pub proof fn law_no_problem_means_no_rule_applies(r: Report)
    ensures
        verdict::judgement(r).culprit is NoProblem <==> (forall|i: int|
            0 <= i < 16 ==> !(#[trigger] priorities(r)[i]).1),
{
    if forall|i: int| 0 <= i < 16 ==> !(#[trigger] priorities(r)[i]).1 {
        law_first_rule_wins(r, 16);
    } else {
        let k = lemma_first_that_applies(r, 0);
        law_first_rule_wins(r, k);
    }
}

proof fn lemma_first_that_applies(r: Report, from: int) -> (k: int)
    requires
        0 <= from <= 16,
        exists|i: int| from <= i < 16 && (#[trigger] priorities(r)[i]).1,
    ensures
        from <= k < 16,
        priorities(r)[k].1,
        forall|i: int| from <= i < k ==> !(#[trigger] priorities(r)[i]).1,
    decreases 16 - from,
{
    if priorities(r)[from].1 {
        from
    } else {
        lemma_first_that_applies(r, from + 1)
    }
}

/// A target that no TCP probe reaches is never called healthy.
pub proof fn law_dead_target_is_a_problem(r: Report)
    requires
        summary::all_fail(r.tcp.probes@),
    ensures
        !(verdict::judgement(r).culprit is NoProblem),
{
}

/// The report with another result of the QUIC stage.
pub open spec fn with_quic(r: Report, quic: Option<QuicReport>) -> Report {
    Report {
        target: r.target,
        env: r.env,
        dns: r.dns,
        tcp: r.tcp,
        tls: r.tls,
        http: r.http,
        quic,
        path: r.path,
        trace: r.trace,
        completeness: r.completeness,
        stage_durations: r.stage_durations,
    }
}

/// Blocked UDP is the verdict of the lowest priority: whatever QUIC did, it
/// changes nothing but a verdict that all is well.
pub proof fn law_quic_never_displaces_another_culprit(r: Report, quic: Option<QuicReport>)
    ensures
        ({
            let before = verdict::judgement(r);
            let after = verdict::judgement(with_quic(r, quic));
            ||| before.culprit == after.culprit && before.headline == after.headline
                && before.evidence == after.evidence && before.zone_hint == after.zone_hint
            ||| before.culprit is NoProblem && after.culprit is Udp443Blocked
            ||| before.culprit is Udp443Blocked && after.culprit is NoProblem
        }),
{
    let s = with_quic(r, quic);
    assert(rules::reach_ruling(s) == rules::reach_ruling(r));
    assert(rules::tls_ruling(s) == rules::tls_ruling(r));
    assert(rules::healthy_stages(s) == rules::healthy_stages(r));
    assert(rules::large_packets_vanish(s) == rules::large_packets_vanish(r));
    assert(rules::unstable_evidence(s) == rules::unstable_evidence(r));
}

/// Where HTTP/3 is not advertised, a QUIC timeout is noted and is never the
/// verdict.
pub proof fn law_unadvertised_quic_timeout_is_a_note(r: Report)
    requires
        !rules::h3_advertised(r),
        r.quic is Some,
        r.quic->0.outcome is Timeout,
    ensures
        !(verdict::judgement(r).culprit is Udp443Blocked),
        verdict::judgement(r).secondary.contains(FindingView::QuicTimedOut { h3_advertised: false }),
{
    let c = rules::primary(r).culprit;
    let list = verdict::judgement(r).secondary;
    assert(rules::quic_findings(r, c) == seq![FindingView::QuicTimedOut { h3_advertised: false }]);
    assert(list[list.len() - 1] == FindingView::QuicTimedOut { h3_advertised: false });
}

/// A QUIC timeout never goes unmentioned: it is the verdict or a note.
pub proof fn law_quic_timeout_is_mentioned(r: Report)
    requires
        r.quic is Some,
        r.quic->0.outcome is Timeout,
    ensures
        verdict::judgement(r).culprit is Udp443Blocked || verdict::judgement(r).secondary.contains(
            FindingView::QuicTimedOut { h3_advertised: rules::h3_advertised(r) },
        ),
{
    let c = rules::primary(r).culprit;
    let list = verdict::judgement(r).secondary;
    if !(c is Udp443Blocked) {
        let note = FindingView::QuicTimedOut { h3_advertised: rules::h3_advertised(r) };
        assert(rules::quic_findings(r, c) == seq![note]);
        assert(list[list.len() - 1] == note);
    }
}

/// The report with another entry of the hosts file.
pub open spec fn with_override(r: Report, ip: Option<String>) -> Report {
    Report {
        target: r.target,
        env: crate::report::EnvReport {
            nameservers: r.env.nameservers,
            search_domains: r.env.search_domains,
            hosts_override: ip,
            proxies: r.env.proxies,
            no_proxy: r.env.no_proxy,
        },
        dns: r.dns,
        tcp: r.tcp,
        tls: r.tls,
        http: r.http,
        quic: r.quic,
        path: r.path,
        trace: r.trace,
        completeness: r.completeness,
        stage_durations: r.stage_durations,
    }
}

/// An entry of the hosts file is a finding and never changes the culprit.
pub proof fn law_hosts_override_is_secondary(r: Report, ip: Option<String>)
    ensures
        verdict::judgement(with_override(r, ip)).culprit == verdict::judgement(r).culprit,
        verdict::judgement(with_override(r, ip)).headline == verdict::judgement(r).headline,
        verdict::judgement(with_override(r, ip)).evidence == verdict::judgement(r).evidence,
        ip is Some ==> verdict::judgement(with_override(r, ip)).secondary.contains(
            FindingView::HostsOverride { host: r.target.host@, ip: ip->0@ },
        ),
{
    let s = with_override(r, ip);
    assert(rules::reach_ruling(s) == rules::reach_ruling(r));
    assert(rules::tls_ruling(s) == rules::tls_ruling(r));
    assert(rules::quality_ruling(s) == rules::quality_ruling(r));
    assert(rules::healthy_stages(s) == rules::healthy_stages(r));
    if ip is Some {
        let note = FindingView::HostsOverride { host: r.target.host@, ip: ip->0@ };
        assert(verdict::judgement(s).secondary[0] == note);
    }
}

/// A place on the path is named only for a failure on the path, and only where
/// the trace did not reach the destination.
pub proof fn law_zone_hint_needs_an_unreached_destination(r: Report)
    requires
        verdict::judgement(r).zone_hint is Some,
    ensures
        rules::path_related(verdict::judgement(r).culprit),
        rules::traced(r) is Some,
        !rules::traced(r)->0.dest_reached,
{
}

} // verus!
