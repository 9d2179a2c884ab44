//! What a verdict says of the measurements: when each rule applies and what its
//! grounds hold, told in terms of the report alone.

use crate::addr;
use crate::addr::IpAddr;
use crate::measure::Millis;
use crate::probe::trace;
use crate::report::{DnsSourceResult, QuicOutcome, Report, TcpProbe, TraceReport};
use crate::text;
use crate::verdict;
use crate::verdict::laws;
use crate::verdict::rules;
use crate::verdict::summary;
use crate::verdict::{Culprit, EvidenceView, FindingView};
use vstd::prelude::*;

verus! {

// ── The DNS answers ─────────────────────────────────────────────────────

/// A source of that kind answered with this address.
pub open spec fn gives(sources: Seq<DnsSourceResult>, public: bool, ip: IpAddr) -> bool {
    exists|i: int|
        0 <= i < sources.len() && ((#[trigger] sources[i]).source is Public) == public
            && sources[i].outcome is Resolved && sources[i].ips@.contains(ip)
}

/// A source of that kind resolved the name.
pub open spec fn knows(sources: Seq<DnsSourceResult>, public: bool) -> bool {
    exists|i: int|
        0 <= i < sources.len() && ((#[trigger] sources[i]).source is Public) == public
            && sources[i].outcome is Resolved
}

/// Both kinds of sources gave addresses, and no address came from both.
pub open spec fn nothing_in_common(sources: Seq<DnsSourceResult>) -> bool {
    &&& exists|ip: IpAddr| gives(sources, false, ip)
    &&& exists|ip: IpAddr| gives(sources, true, ip)
    &&& forall|ip: IpAddr| #[trigger] gives(sources, false, ip) ==> !gives(sources, true, ip)
}

proof fn lemma_gives_step(sources: Seq<DnsSourceResult>, public: bool, ip: IpAddr)
    requires
        sources.len() > 0,
    ensures
        gives(sources, public, ip) <==> gives(sources.drop_last(), public, ip) || (
        (sources.last().source is Public) == public && sources.last().outcome is Resolved
            && sources.last().ips@.contains(ip)),
{
    let front = sources.drop_last();
    if gives(front, public, ip) {
        let i = choose|i: int|
            0 <= i < front.len() && ((#[trigger] front[i]).source is Public) == public
                && front[i].outcome is Resolved && front[i].ips@.contains(ip);
        assert(sources[i] == front[i]);
    }
    if gives(sources, public, ip) {
        let i = choose|i: int|
            0 <= i < sources.len() && ((#[trigger] sources[i]).source is Public) == public
                && sources[i].outcome is Resolved && sources[i].ips@.contains(ip);
        if i < front.len() {
            assert(front[i] == sources[i]);
        }
    }
    if (sources.last().source is Public) == public && sources.last().outcome is Resolved
        && sources.last().ips@.contains(ip) {
        assert(sources[sources.len() - 1].ips@.contains(ip));
    }
}

proof fn lemma_answers(sources: Seq<DnsSourceResult>, public: bool, t: Seq<char>)
    ensures
        summary::answers(sources, !public).contains(t) <==> exists|ip: IpAddr|
            #[trigger] gives(sources, public, ip) && ip.shown() == t,
    decreases sources.len(),
{
    let all = summary::answers(sources, !public);
    if sources.len() == 0 {
        assert(all.len() == 0);
    } else {
        let s = sources.last();
        let front = summary::answers(sources.drop_last(), !public);
        let own = addr::ip_texts(s.ips@);
        lemma_answers(sources.drop_last(), public, t);
        if all.contains(t) {
            let k = choose|k: int| 0 <= k < all.len() && all[k] == t;
            if k < front.len() {
                assert(front[k] == t);
                let ip = choose|ip: IpAddr|
                    #[trigger] gives(sources.drop_last(), public, ip) && ip.shown() == t;
                lemma_gives_step(sources, public, ip);
            } else {
                let ip = s.ips@[k - front.len()];
                assert(own[k - front.len()] == ip.shown());
                assert(s.ips@.contains(ip));
                lemma_gives_step(sources, public, ip);
            }
        }
        if exists|ip: IpAddr| #[trigger] gives(sources, public, ip) && ip.shown() == t {
            let ip = choose|ip: IpAddr| #[trigger] gives(sources, public, ip) && ip.shown() == t;
            lemma_gives_step(sources, public, ip);
            if gives(sources.drop_last(), public, ip) {
                let k = choose|k: int| 0 <= k < front.len() && front[k] == t;
                assert(all[k] == t);
            } else {
                let k = choose|k: int| 0 <= k < s.ips@.len() && s.ips@[k] == ip;
                assert(own[k] == t);
                assert(all[front.len() + k] == t);
            }
        }
    }
}

proof fn lemma_answer_list(sources: Seq<DnsSourceResult>, public: bool)
    ensures
        lists(summary::answer_list(sources, !public), sources, public),
{
    let list = summary::answer_list(sources, !public);
    text::law_sorting_keeps_the_texts(summary::answers(sources, !public));
    assert forall|t: Seq<char>| #[trigger]
        list.contains(t) <==> exists|ip: IpAddr|
            #[trigger] gives(sources, public, ip) && ip.shown() == t by {
        lemma_answers(sources, public, t);
        assert(text::sorted_texts(summary::answers(sources, !public)).contains(t)
            <==> summary::answers(sources, !public).contains(t));
    }
}

proof fn lemma_disjoint(sources: Seq<DnsSourceResult>)
    ensures
        summary::disjoint(sources) <==> nothing_in_common(sources),
{
    let l = summary::answer_list(sources, true);
    let p = summary::answer_list(sources, false);
    lemma_answer_list(sources, false);
    lemma_answer_list(sources, true);
    if summary::disjoint(sources) {
        assert(l.contains(l[0]));
        assert(p.contains(p[0]));
        assert forall|ip: IpAddr| #[trigger] gives(sources, false, ip) implies !gives(
            sources,
            true,
            ip,
        ) by {
            if gives(sources, true, ip) {
                assert(l.contains(ip.shown()));
                assert(p.contains(ip.shown()));
                let k = choose|k: int| 0 <= k < l.len() && l[k] == ip.shown();
                assert(!p.contains(l[k]));
            }
        }
    }
    if nothing_in_common(sources) {
        let a = choose|ip: IpAddr| gives(sources, false, ip);
        let b = choose|ip: IpAddr| gives(sources, true, ip);
        assert(l.contains(a.shown()));
        assert(p.contains(b.shown()));
        assert forall|i: int| 0 <= i < l.len() implies !p.contains(#[trigger] l[i]) by {
            assert(l.contains(l[i]));
            let x = choose|ip: IpAddr| #[trigger] gives(sources, false, ip) && ip.shown() == l[i];
            if p.contains(l[i]) {
                let y = choose|ip: IpAddr| #[trigger] gives(sources, true, ip) && ip.shown() == l[i];
                addr::laws::law_addresses_read_back(x);
                addr::laws::law_addresses_read_back(y);
                assert(x == y);
            }
        }
    }
}

proof fn lemma_knows(sources: Seq<DnsSourceResult>, public: bool)
    ensures
        summary::resolves(sources, !public) <==> knows(sources, public),
{
    let local = !public;
    if summary::resolves(sources, local) {
        let i = choose|i: int|
            0 <= i < sources.len() && #[trigger] summary::resolves_at(sources, local, i);
        assert((sources[i].source is Public) == public);
    }
    if knows(sources, public) {
        let i = choose|i: int|
            0 <= i < sources.len() && ((#[trigger] sources[i]).source is Public) == public
                && sources[i].outcome is Resolved;
        assert(summary::resolves_at(sources, local, i));
    }
}

/// The TLS stage did not verify the server.
pub open spec fn tls_stage_failed(r: Report) -> bool {
    r.tls matches Some(tls) && !tls.verified && tls.error is Some
}

/// There were TCP probes, and none of them connected even once.
pub open spec fn tcp_stage_failed(r: Report) -> bool {
    &&& r.tcp.probes@.len() > 0
    &&& forall|i: int| 0 <= i < r.tcp.probes@.len() ==> (#[trigger] r.tcp.probes@[i]).successes == 0
}

/// A TCP probe connected.
pub open spec fn tcp_connects(r: Report) -> bool {
    exists|i: int| 0 <= i < r.tcp.probes@.len() && (#[trigger] r.tcp.probes@[i]).successes > 0
}

proof fn lemma_tcp(r: Report)
    ensures
        summary::connects(r.tcp.probes@) <==> tcp_connects(r),
        summary::all_fail(r.tcp.probes@) <==> tcp_stage_failed(r),
{
    let p = r.tcp.probes@;
    if summary::connects(p) {
        let i = choose|i: int| 0 <= i < p.len() && (#[trigger] p[i]).connected();
        assert(p[i].successes > 0);
    }
    if tcp_connects(r) {
        let i = choose|i: int| 0 <= i < p.len() && (#[trigger] p[i]).successes > 0;
        assert(p[i].connected());
    }
}

/// When the rules on names apply. The first is that every source that answered denied
/// the name, the second that only public DNS knows it, the third that nobody does,
/// and the fourth that local and public answers have nothing in common while the
/// connection fails, at TCP or at TLS.
pub proof fn law_rules_on_names(r: Report)
    ensures
        laws::priorities(r)[0] == (
            Culprit::NameDoesNotExist,
            !r.dns.skipped && (exists|i: int|
                0 <= i < r.dns.sources@.len() && (#[trigger] r.dns.sources@[i]).outcome is NxDomain)
                && (forall|i: int|
                0 <= i < r.dns.sources@.len() ==> (#[trigger] r.dns.sources@[i]).outcome is NxDomain
                    || r.dns.sources@[i].outcome is Timeout || r.dns.sources@[i].outcome is Error),
        ),
        laws::priorities(r)[1] == (
            Culprit::LocalDnsBroken,
            !r.dns.skipped && knows(r.dns.sources@, true) && !knows(r.dns.sources@, false),
        ),
        laws::priorities(r)[2] == (
            Culprit::TcpBlocked,
            !r.dns.skipped && r.dns.sources@.len() > 0 && (forall|i: int|
                0 <= i < r.dns.sources@.len() ==> !((#[trigger] r.dns.sources@[i]).outcome is Resolved)),
        ),
        laws::priorities(r)[3] == (
            Culprit::DnsAnswerMismatch,
            !r.dns.skipped && nothing_in_common(r.dns.sources@) && (tcp_stage_failed(r)
                || tls_stage_failed(r)),
        ),
{
    let s = r.dns.sources@;
    lemma_knows(s, true);
    lemma_knows(s, false);
    lemma_disjoint(s);
    lemma_tcp(r);
    if nothing_in_common(s) {
        let a = choose|ip: IpAddr| gives(s, false, ip);
        let i = choose|i: int|
            0 <= i < s.len() && ((#[trigger] s[i]).source is Public) == false
                && s[i].outcome is Resolved && s[i].ips@.contains(a);
        assert(s.len() > 0);
    }
    if exists|i: int| 0 <= i < s.len() && summary::answered(#[trigger] s[i]) {
        let i = choose|i: int| 0 <= i < s.len() && summary::answered(#[trigger] s[i]);
        assert(s[i].outcome is NxDomain || !(s[i].outcome is NxDomain));
    }
    if exists|i: int| 0 <= i < s.len() && (#[trigger] s[i]).outcome is NxDomain {
        let i = choose|i: int| 0 <= i < s.len() && (#[trigger] s[i]).outcome is NxDomain;
        assert(summary::answered(s[i]));
    }
    if knows(s, true) {
        let i = choose|i: int|
            0 <= i < s.len() && ((#[trigger] s[i]).source is Public) == true
                && s[i].outcome is Resolved;
        assert(s.len() > 0);
    }
    if !knows(s, true) && !knows(s, false) {
        assert forall|i: int| 0 <= i < s.len() implies !((#[trigger] s[i]).outcome is Resolved) by {
            if s[i].source is Public {
                assert((s[i].source is Public) == true);
            } else {
                assert((s[i].source is Public) == false);
            }
        }
    }
}

/// Local and public DNS that answered and have no address in common are the verdict
/// wherever the connection fails, be it that no TCP probe connected or that TLS failed
/// over a connection that stands.
pub proof fn law_differing_answers_explain_a_failure(r: Report)
    requires
        !r.dns.skipped,
        nothing_in_common(r.dns.sources@),
        tls_stage_failed(r) || tcp_stage_failed(r),
    ensures
        verdict::judgement(r).culprit is DnsAnswerMismatch,
        exists|local: Seq<Seq<char>>, public: Seq<Seq<char>>|
            {
                &&& #[trigger] verdict::judgement(r).evidence.contains(
                    EvidenceView::LocalDnsAnswers { ips: local },
                )
                &&& #[trigger] verdict::judgement(r).evidence.contains(
                    EvidenceView::PublicDnsAnswers { ips: public },
                )
                &&& lists(local, r.dns.sources@, false)
                &&& lists(public, r.dns.sources@, true)
            },
{
    law_rules_on_names(r);
    let s = r.dns.sources@;
    lemma_disjoint(s);
    lemma_both_known(s);
    laws::law_first_rule_wins(r, 3);
    let e = verdict::judgement(r).evidence;
    let local = summary::answer_list(s, true);
    let public = summary::answer_list(s, false);
    lemma_answer_list(s, false);
    lemma_answer_list(s, true);
    assert(e[0] == EvidenceView::LocalDnsAnswers { ips: local });
    assert(e[1] == EvidenceView::PublicDnsAnswers { ips: public });
    assert(e.contains(EvidenceView::LocalDnsAnswers { ips: local }));
    assert(e.contains(EvidenceView::PublicDnsAnswers { ips: public }));
}

/// The list holds the texts of exactly the addresses that the sources of that kind
/// gave.
pub open spec fn lists(ips: Seq<Seq<char>>, sources: Seq<DnsSourceResult>, public: bool) -> bool {
    forall|t: Seq<char>| #[trigger]
        ips.contains(t) <==> exists|ip: IpAddr|
            #[trigger] gives(sources, public, ip) && ip.shown() == t
}

proof fn lemma_both_known(s: Seq<DnsSourceResult>)
    requires
        nothing_in_common(s),
    ensures
        knows(s, true),
        knows(s, false),
{
    let a = choose|ip: IpAddr| gives(s, false, ip);
    let i = choose|i: int|
        0 <= i < s.len() && ((#[trigger] s[i]).source is Public) == false && s[i].outcome is Resolved
            && s[i].ips@.contains(a);
    assert((s[i].source is Public) == false);
    let b = choose|ip: IpAddr| gives(s, true, ip);
    let j = choose|i: int|
        0 <= i < s.len() && ((#[trigger] s[i]).source is Public) == true && s[i].outcome is Resolved
            && s[i].ips@.contains(b);
    assert((s[j].source is Public) == true);
}

/// Local and public answers without a common address never go unmentioned: they are
/// the verdict, or a note that lists both sides.
pub proof fn law_differing_answers_are_mentioned(r: Report)
    requires
        !r.dns.skipped,
        nothing_in_common(r.dns.sources@),
    ensures
        verdict::judgement(r).culprit is DnsAnswerMismatch || exists|
            local: Seq<Seq<char>>,
            public: Seq<Seq<char>>,
        |
            #[trigger] verdict::judgement(r).secondary.contains(
                FindingView::DnsAnswersDiffer { local, public },
            ) && lists(local, r.dns.sources@, false) && lists(public, r.dns.sources@, true),
{
    let s = r.dns.sources@;
    lemma_tcp(r);
    lemma_disjoint(s);
    if tls_stage_failed(r) || tcp_stage_failed(r) {
        law_differing_answers_explain_a_failure(r);
    } else {
        lemma_answer_list(s, false);
        lemma_answer_list(s, true);
        let note = FindingView::DnsAnswersDiffer {
            local: summary::answer_list(s, true),
            public: summary::answer_list(s, false),
        };
        let all = verdict::judgement(r).secondary;
        let k: int = (if r.env.hosts_override is Some {
            1int
        } else {
            0int
        }) + (if r.env.proxies@.len() > 0 {
            1int
        } else {
            0int
        });
        assert(all[k] == note);
        assert(all.contains(note));
    }
}

// ── The connection ──────────────────────────────────────────────────────

proof fn lemma_family_count(probes: Seq<TcpProbe>, v4: bool, ok: bool)
    ensures
        summary::family_count(probes, v4, ok) > 0 <==> exists|i: int|
            0 <= i < probes.len() && ((#[trigger] probes[i]).ip is V4) == v4 && (ok
                ==> probes[i].successes > 0),
    decreases probes.len(),
{
    if probes.len() > 0 {
        let front = probes.drop_last();
        lemma_family_count(front, v4, ok);
        if exists|i: int|
            0 <= i < front.len() && ((#[trigger] front[i]).ip is V4) == v4 && (ok
                ==> front[i].successes > 0) {
            let i = choose|i: int|
                0 <= i < front.len() && ((#[trigger] front[i]).ip is V4) == v4 && (ok
                    ==> front[i].successes > 0);
            assert(probes[i] == front[i]);
        }
        if exists|i: int|
            0 <= i < probes.len() && ((#[trigger] probes[i]).ip is V4) == v4 && (ok
                ==> probes[i].successes > 0) {
            let i = choose|i: int|
                0 <= i < probes.len() && ((#[trigger] probes[i]).ip is V4) == v4 && (ok
                    ==> probes[i].successes > 0);
            if i < front.len() {
                assert(front[i] == probes[i]);
            }
        }
        assert(probes[probes.len() - 1].ip == probes.last().ip);
    }
}

/// When the rules on the connection apply: every probe was refused; no probe
/// connected; IPv6 probes all failed while an IPv4 probe connected.
pub proof fn law_rules_on_connections(r: Report)
    ensures
        laws::priorities(r)[4] == (
            Culprit::ServerDown,
            r.tcp.probes@.len() > 0 && (forall|i: int|
                0 <= i < r.tcp.probes@.len() ==> (#[trigger] r.tcp.probes@[i]).outcome is Refused
                    && r.tcp.probes@[i].successes == 0),
        ),
        laws::priorities(r)[5] == (Culprit::TcpBlocked, tcp_stage_failed(r)),
        laws::priorities(r)[6] == (
            Culprit::Ipv6Broken,
            (exists|i: int|
                0 <= i < r.tcp.probes@.len() && (#[trigger] r.tcp.probes@[i]).ip is V6) && (forall|
                i: int,
            |
                0 <= i < r.tcp.probes@.len() && (#[trigger] r.tcp.probes@[i]).ip is V6
                    ==> r.tcp.probes@[i].successes == 0) && (exists|i: int|
                0 <= i < r.tcp.probes@.len() && (#[trigger] r.tcp.probes@[i]).ip is V4
                    && r.tcp.probes@[i].successes > 0),
        ),
{
    let p = r.tcp.probes@;
    lemma_tcp(r);
    lemma_family_count(p, false, false);
    lemma_family_count(p, false, true);
    lemma_family_count(p, true, false);
    lemma_family_count(p, true, true);
    if exists|i: int| 0 <= i < p.len() && (#[trigger] p[i]).ip is V6 {
        let i = choose|i: int| 0 <= i < p.len() && (#[trigger] p[i]).ip is V6;
        assert((p[i].ip is V4) == false);
    }
    if exists|i: int| 0 <= i < p.len() && (#[trigger] p[i]).ip is V4 && p[i].successes > 0 {
        let i = choose|i: int|
            0 <= i < p.len() && (#[trigger] p[i]).ip is V4 && p[i].successes > 0;
        assert((p[i].ip is V4) == true);
    }
    if exists|i: int|
        0 <= i < p.len() && ((#[trigger] p[i]).ip is V4) == true && p[i].successes > 0 {
        let i = choose|i: int|
            0 <= i < p.len() && ((#[trigger] p[i]).ip is V4) == true && p[i].successes > 0;
        assert(p[i].ip is V4 && p[i].successes > 0);
    }
    if exists|i: int| 0 <= i < p.len() && ((#[trigger] p[i]).ip is V4) == false {
        let i = choose|i: int| 0 <= i < p.len() && ((#[trigger] p[i]).ip is V4) == false;
        assert(p[i].ip is V6);
    }
}

/// When the rules on TLS and on proxies apply.
pub proof fn law_rules_on_tls_and_proxies(r: Report)
    ensures
        laws::priorities(r)[7] == (
            Culprit::TlsCertExpired,
            r.tls matches Some(tls) && tls.cert_expired,
        ),
        laws::priorities(r)[8] == (
            Culprit::TlsIntercepted,
            r.tls matches Some(tls) && tls.interception_suspected,
        ),
        laws::priorities(r)[9] == (Culprit::TlsCertInvalid, tls_stage_failed(r)),
        laws::priorities(r)[10] == (
            Culprit::ProxyInterference,
            r.env.proxies@.len() > 0 && tcp_connects(r) && (r.http matches Some(http)
                && http.error is Some && http.status is None),
        ),
{
    lemma_tcp(r);
}

// ── How well it works ───────────────────────────────────────────────────

proof fn lemma_best_connect(probes: Seq<TcpProbe>)
    ensures
        match summary::best_connect(probes) {
            Some(m) => is_least_average(probes, m),
            None => forall|i: int| 0 <= i < probes.len() ==> (#[trigger] probes[i]).avg_ms is None,
        },
    decreases probes.len(),
{
    if probes.len() > 0 {
        let front = probes.drop_last();
        lemma_best_connect(front);
        assert(forall|i: int| 0 <= i < front.len() ==> front[i] == #[trigger] probes[i]);
        match summary::best_connect(probes) {
            Some(m) => {
                if summary::best_connect(front) == Some(m) {
                    let i = choose|i: int|
                        0 <= i < front.len() && (#[trigger] front[i]).avg_ms == Some(m);
                    assert(probes[i].avg_ms == Some(m));
                } else {
                    assert(probes[probes.len() - 1].avg_ms == Some(m));
                }
                assert forall|i: int|
                    0 <= i < probes.len() && (#[trigger] probes[i]).avg_ms is Some implies m.nanos
                    <= probes[i].avg_ms->0.nanos by {
                    if i < front.len() {
                        assert(front[i].avg_ms is Some);
                    }
                }
            },
            None => {},
        }
    }
}

/// `m` is an average of the probes, and none is shorter.
pub open spec fn is_least_average(probes: Seq<TcpProbe>, m: Millis) -> bool {
    &&& exists|i: int| 0 <= i < probes.len() && (#[trigger] probes[i]).avg_ms == Some(m)
    &&& forall|i: int|
        0 <= i < probes.len() && (#[trigger] probes[i]).avg_ms is Some ==> m.nanos
            <= probes[i].avg_ms->0.nanos
}

/// `m` is a latency of the sources of that kind that resolved the name, and none is
/// shorter.
pub open spec fn is_least_latency(
    sources: Seq<DnsSourceResult>,
    public: bool,
    m: Millis,
) -> bool {
    &&& exists|i: int|
        0 <= i < sources.len() && ((#[trigger] sources[i]).source is Public) == public
            && sources[i].outcome is Resolved && sources[i].latency_ms == Some(m)
    &&& forall|i: int|
        0 <= i < sources.len() && ((#[trigger] sources[i]).source is Public) == public
            && sources[i].outcome is Resolved && sources[i].latency_ms is Some ==> m.nanos
            <= sources[i].latency_ms->0.nanos
}

proof fn lemma_best_latency(sources: Seq<DnsSourceResult>, public: bool)
    ensures
        match summary::best_latency(sources, !public) {
            Some(m) => is_least_latency(sources, public, m),
            None => forall|i: int|
                0 <= i < sources.len() && ((#[trigger] sources[i]).source is Public) == public
                    && sources[i].outcome is Resolved ==> sources[i].latency_ms is None,
        },
    decreases sources.len(),
{
    if sources.len() > 0 {
        let front = sources.drop_last();
        lemma_best_latency(front, public);
        assert(forall|i: int| 0 <= i < front.len() ==> front[i] == #[trigger] sources[i]);
        match summary::best_latency(sources, !public) {
            Some(m) => {
                if summary::best_latency(front, !public) == Some(m) {
                    let i = choose|i: int|
                        0 <= i < front.len() && ((#[trigger] front[i]).source is Public) == public
                            && front[i].outcome is Resolved && front[i].latency_ms == Some(m);
                    assert(sources[i].latency_ms == Some(m));
                } else {
                    assert(sources[sources.len() - 1].latency_ms == Some(m));
                }
                assert forall|i: int|
                    0 <= i < sources.len() && ((#[trigger] sources[i]).source is Public) == public
                        && sources[i].outcome is Resolved
                        && sources[i].latency_ms is Some implies m.nanos
                    <= sources[i].latency_ms->0.nanos by {
                    if i < front.len() {
                        assert(front[i].latency_ms is Some);
                    }
                }
            },
            None => {
                assert forall|i: int|
                    0 <= i < sources.len() && ((#[trigger] sources[i]).source is Public) == public
                        && sources[i].outcome is Resolved implies sources[i].latency_ms is None by {
                    if i < front.len() {
                        assert(front[i].source == sources[i].source);
                    }
                }
            },
        }
    }
}

/// When the rules on quality apply. A first byte after more than a second over a
/// connection of less than 100 ms is a slow server; loss of at least a tenth or
/// jitter above 50 ms is an unstable path; a local DNS slower than 200 ms beside a
/// public one faster than 100 ms is slow.
pub proof fn law_rules_on_quality(r: Report)
    ensures
        laws::priorities(r)[11] == (
            Culprit::ServerSlow,
            (r.http matches Some(http) && (http.ttfb_ms matches Some(t) && t.nanos > 1_000_000_000))
                && (exists|i: int|
                0 <= i < r.tcp.probes@.len() && ((#[trigger] r.tcp.probes@[i]).avg_ms matches Some(
                    a,
                ) && a.nanos < 100_000_000)),
        ),
        laws::priorities(r)[12] == (
            Culprit::UnstablePath,
            r.path matches Some(p) && ((p.loss_pct.whole > 0 && p.loss_pct.part * 10
                >= p.loss_pct.whole) || (p.jitter_ms matches Some(j) && j.nanos > 50_000_000)),
        ),
        laws::priorities(r)[13] == (
            Culprit::PmtuBlackhole,
            tcp_connects(r) && (r.trace matches Some(TraceReport::Ran(data)) && trace::blackhole(
                data.kernel_mtu,
                data.mtu_probes@,
            )),
        ),
        laws::priorities(r)[14] == (
            Culprit::LocalDnsSlow,
            (exists|m: Millis| #[trigger]
                is_least_latency(r.dns.sources@, false, m) && m.nanos > 200_000_000) && (exists|
                m: Millis,
            | #[trigger] is_least_latency(r.dns.sources@, true, m) && m.nanos < 100_000_000),
        ),
        laws::priorities(r)[15] == (
            Culprit::Udp443Blocked,
            tcp_connects(r) && (r.tls matches Some(tls) && tls.verified) && (r.http matches Some(http)
                && http.status is Some && http.error is None && http.h3_advertised) && (
            r.quic matches Some(quic) && quic.outcome is Timeout),
        ),
        laws::priorities(r)[16] == (Culprit::NoProblem, true),
{
    lemma_tcp(r);
    let p = r.tcp.probes@;
    let s = r.dns.sources@;
    lemma_best_connect(p);
    lemma_best_latency(s, false);
    lemma_best_latency(s, true);
    lemma_slow_server(r);
    lemma_slow_dns(r);
}

proof fn lemma_slow_server(r: Report)
    ensures
        (summary::best_connect(r.tcp.probes@) matches Some(m) && m.nanos < 100_000_000) <==> exists|
            i: int,
        |
            0 <= i < r.tcp.probes@.len() && ((#[trigger] r.tcp.probes@[i]).avg_ms matches Some(a)
                && a.nanos < 100_000_000),
{
    let p = r.tcp.probes@;
    lemma_best_connect(p);
    if exists|i: int|
        0 <= i < p.len() && ((#[trigger] p[i]).avg_ms matches Some(a) && a.nanos < 100_000_000) {
        let i = choose|i: int|
            0 <= i < p.len() && ((#[trigger] p[i]).avg_ms matches Some(a) && a.nanos
                < 100_000_000);
        let a = p[i].avg_ms->0;
        assert(p[i].avg_ms == Some(a));
    }
    match summary::best_connect(p) {
        Some(m) => {
            let i = choose|i: int| 0 <= i < p.len() && (#[trigger] p[i]).avg_ms == Some(m);
            assert(p[i].avg_ms == Some(m));
        },
        None => {},
    }
}

proof fn lemma_least_latency(sources: Seq<DnsSourceResult>, public: bool, m: Millis)
    ensures
        is_least_latency(sources, public, m) <==> summary::best_latency(sources, !public) == Some(m),
{
    lemma_best_latency(sources, public);
    if is_least_latency(sources, public, m) {
        let i = choose|i: int|
            0 <= i < sources.len() && ((#[trigger] sources[i]).source is Public) == public
                && sources[i].outcome is Resolved && sources[i].latency_ms == Some(m);
        let best = summary::best_latency(sources, !public)->0;
        let j = choose|i: int|
            0 <= i < sources.len() && ((#[trigger] sources[i]).source is Public) == public
                && sources[i].outcome is Resolved && sources[i].latency_ms == Some(best);
        assert(sources[i].latency_ms == Some(m));
        assert(sources[j].latency_ms == Some(best));
    }
}

proof fn lemma_slow_dns(r: Report)
    ensures
        rules::local_dns_slow(r) <==> (exists|m: Millis| #[trigger]
            is_least_latency(r.dns.sources@, false, m) && m.nanos > 200_000_000) && (exists|
            m: Millis,
        | #[trigger] is_least_latency(r.dns.sources@, true, m) && m.nanos < 100_000_000),
{
    let s = r.dns.sources@;
    lemma_best_latency(s, false);
    lemma_best_latency(s, true);
    assert forall|m: Millis| #[trigger]
        is_least_latency(s, false, m) <==> summary::best_latency(s, true) == Some(m) by {
        lemma_least_latency(s, false, m);
    }
    assert forall|m: Millis| #[trigger]
        is_least_latency(s, true, m) <==> summary::best_latency(s, false) == Some(m) by {
        lemma_least_latency(s, true, m);
    }
    if rules::local_dns_slow(r) {
        assert(is_least_latency(s, false, summary::best_latency(s, true)->0));
        assert(is_least_latency(s, true, summary::best_latency(s, false)->0));
    }
}

// ── What is said ────────────────────────────────────────────────────────

proof fn lemma_either<T>(a: Seq<T>, b: Seq<T>, x: T)
    ensures
        (a + b).contains(x) <==> a.contains(x) || b.contains(x),
{
    if a.contains(x) {
        let k = choose|k: int| 0 <= k < a.len() && a[k] == x;
        assert((a + b)[k] == x);
    }
    if b.contains(x) {
        let k = choose|k: int| 0 <= k < b.len() && b[k] == x;
        assert((a + b)[a.len() + k] == x);
    }
    if (a + b).contains(x) {
        let k = choose|k: int| 0 <= k < (a + b).len() && (a + b)[k] == x;
        if k < a.len() {
            assert(a[k] == x);
        } else {
            assert(b[k - a.len()] == x);
        }
    }
}

proof fn lemma_one<T>(y: T, x: T)
    ensures
        seq![y].contains(x) <==> x == y,
        !Seq::<T>::empty().contains(x),
{
    assert(seq![y][0] == y);
}

/// Which secondary findings there are.
spec fn finding_parts(r: Report) -> (
    Seq<FindingView>,
    Seq<FindingView>,
    Seq<FindingView>,
    Seq<FindingView>,
    Seq<FindingView>,
) {
    (
        match r.env.hosts_override {
            Some(ip) => seq![FindingView::HostsOverride { host: r.target.host@, ip: ip@ }],
            None => Seq::empty(),
        },
        if r.env.proxies@.len() > 0 {
            seq![FindingView::ProxyEnvPresent { names: rules::proxy_names(r.env.proxies@) }]
        } else {
            Seq::empty()
        },
        if summary::disjoint(r.dns.sources@) && !rules::connection_failed(r) {
            seq![
                FindingView::DnsAnswersDiffer {
                    local: summary::answer_list(r.dns.sources@, true),
                    public: summary::answer_list(r.dns.sources@, false),
                },
            ]
        } else {
            Seq::empty()
        },
        match rules::expires_soon(r) {
            Some(days) => seq![FindingView::CertExpiresSoon { days }],
            None => Seq::empty(),
        },
        rules::quic_findings(r, verdict::judgement(r).culprit),
    )
}

proof fn lemma_findings(r: Report, f: FindingView)
    ensures
        verdict::judgement(r).secondary.contains(f) <==> {
            let (a, b, c, d, e) = finding_parts(r);
            a.contains(f) || b.contains(f) || c.contains(f) || d.contains(f) || e.contains(f)
        },
{
    let (a, b, c, d, e) = finding_parts(r);
    lemma_either(a, b, f);
    lemma_either(a + b, c, f);
    lemma_either(a + b + c, d, f);
    lemma_either(a + b + c + d, e, f);
    assert(verdict::judgement(r).secondary =~= a + b + c + d + e);
}

/// A hosts entry is noted exactly where there is one, with the host and the address.
pub proof fn law_note_on_hosts(r: Report, host: Seq<char>, ip: Seq<char>)
    ensures
        verdict::judgement(r).secondary.contains(FindingView::HostsOverride { host, ip })
            <==> host == r.target.host@ && (r.env.hosts_override matches Some(entry) && entry@
            == ip),
{
    let f = FindingView::HostsOverride { host, ip };
    lemma_findings(r, f);
    let (a, b, c, d, e) = finding_parts(r);
    lemma_no_such(b, f);
    lemma_no_such(c, f);
    lemma_no_such(d, f);
    lemma_no_such(e, f);
    lemma_at_most_one(a, f);
}

proof fn lemma_at_most_one(a: Seq<FindingView>, f: FindingView)
    requires
        a.len() <= 1,
    ensures
        a.contains(f) <==> a.len() == 1 && a[0] == f,
{
}

proof fn lemma_no_such(a: Seq<FindingView>, f: FindingView)
    requires
        a.len() <= 1,
        a.len() == 1 ==> a[0] != f,
    ensures
        !a.contains(f),
{
}

/// Proxy variables are noted exactly where there are any, by their names in order.
pub proof fn law_note_on_proxies(r: Report, names: Seq<Seq<char>>)
    ensures
        verdict::judgement(r).secondary.contains(FindingView::ProxyEnvPresent { names })
            <==> r.env.proxies@.len() > 0 && names.len() == r.env.proxies@.len() && (forall|i: int|
            0 <= i < names.len() ==> #[trigger] names[i] == r.env.proxies@[i].0@),
{
    let f = FindingView::ProxyEnvPresent { names };
    lemma_findings(r, f);
    let (a, b, c, d, e) = finding_parts(r);
    lemma_no_such(a, f);
    lemma_no_such(c, f);
    lemma_no_such(d, f);
    lemma_no_such(e, f);
    lemma_at_most_one(b, f);
    let own = rules::proxy_names(r.env.proxies@);
    if names.len() == r.env.proxies@.len() && (forall|i: int|
        0 <= i < names.len() ==> #[trigger] names[i] == r.env.proxies@[i].0@) {
        assert(names =~= own);
    }
}

/// Differing DNS answers are noted exactly where they have nothing in common and the
/// connection works.
pub proof fn law_note_on_answers(r: Report)
    ensures
        (exists|local: Seq<Seq<char>>, public: Seq<Seq<char>>| #[trigger]
            verdict::judgement(r).secondary.contains(
                FindingView::DnsAnswersDiffer { local, public },
            )) <==> nothing_in_common(r.dns.sources@) && !tcp_stage_failed(r) && !tls_stage_failed(
            r,
        ),
        forall|local: Seq<Seq<char>>, public: Seq<Seq<char>>| #[trigger]
            verdict::judgement(r).secondary.contains(FindingView::DnsAnswersDiffer { local, public })
                ==> lists(local, r.dns.sources@, false) && lists(public, r.dns.sources@, true),
{
    let s = r.dns.sources@;
    lemma_tcp(r);
    lemma_disjoint(s);
    lemma_answer_list(s, false);
    lemma_answer_list(s, true);
    let (a, b, c, d, e) = finding_parts(r);
    assert forall|local: Seq<Seq<char>>, public: Seq<Seq<char>>| #[trigger]
        verdict::judgement(r).secondary.contains(
            FindingView::DnsAnswersDiffer { local, public },
        ) <==> c.len() == 1 && local == summary::answer_list(s, true) && public
            == summary::answer_list(s, false) by {
        let f = FindingView::DnsAnswersDiffer { local, public };
        lemma_findings(r, f);
        lemma_no_such(a, f);
        lemma_no_such(b, f);
        lemma_no_such(d, f);
        lemma_no_such(e, f);
        lemma_at_most_one(c, f);
    }
    if c.len() == 1 {
        assert(verdict::judgement(r).secondary.contains(
            FindingView::DnsAnswersDiffer {
                local: summary::answer_list(s, true),
                public: summary::answer_list(s, false),
            },
        ));
    }
}

/// A certificate that expires within two weeks is noted, and no other.
pub proof fn law_note_on_certificates(r: Report, days: i64)
    ensures
        verdict::judgement(r).secondary.contains(FindingView::CertExpiresSoon { days }) <==> (
        r.tls matches Some(tls) && tls.verified && tls.days_until_expiry == Some(days)) && 0 <= days
            <= 14,
{
    let f = FindingView::CertExpiresSoon { days };
    lemma_findings(r, f);
    let (a, b, c, d, e) = finding_parts(r);
    lemma_no_such(a, f);
    lemma_no_such(b, f);
    lemma_no_such(c, f);
    lemma_no_such(e, f);
    lemma_at_most_one(d, f);
}

/// QUIC that failed otherwise than by silence is noted with its error.
pub proof fn law_note_on_quic_errors(r: Report, error: Seq<char>)
    ensures
        verdict::judgement(r).secondary.contains(FindingView::QuicHandshakeFailed { error }) <==> (
        r.quic matches Some(quic) && (quic.outcome matches QuicOutcome::HandshakeError(e) && e@
            == error)),
        verdict::judgement(r).secondary.contains(FindingView::QuicLocalError { error }) <==> (
        r.quic matches Some(quic) && (quic.outcome matches QuicOutcome::LocalError(e) && e@
            == error)),
{
    let (a, b, c, d, e) = finding_parts(r);
    let f = FindingView::QuicHandshakeFailed { error };
    lemma_findings(r, f);
    lemma_no_such(a, f);
    lemma_no_such(b, f);
    lemma_no_such(c, f);
    lemma_no_such(d, f);
    lemma_at_most_one(e, f);
    let g = FindingView::QuicLocalError { error };
    lemma_findings(r, g);
    lemma_no_such(a, g);
    lemma_no_such(b, g);
    lemma_no_such(c, g);
    lemma_no_such(d, g);
    lemma_at_most_one(e, g);
}

/// A QUIC timeout is noted exactly where it is not the verdict itself, with whether HTTP/3
/// is advertised.
pub proof fn law_note_on_quic_timeouts(r: Report, h3_advertised: bool)
    ensures
        verdict::judgement(r).secondary.contains(FindingView::QuicTimedOut { h3_advertised })
            <==> r.quic is Some && r.quic->0.outcome is Timeout && verdict::judgement(r).culprit
            != Culprit::Udp443Blocked && h3_advertised == (r.http is Some
            && r.http->0.h3_advertised),
{
    let f = FindingView::QuicTimedOut { h3_advertised };
    lemma_findings(r, f);
    let (a, b, c, d, e) = finding_parts(r);
    lemma_no_such(a, f);
    lemma_no_such(b, f);
    lemma_no_such(c, f);
    lemma_no_such(d, f);
    lemma_at_most_one(e, f);
}

/// The order of the secondary findings.
pub open spec fn rank(f: FindingView) -> int {
    match f {
        FindingView::HostsOverride { .. } => 0,
        FindingView::ProxyEnvPresent { .. } => 1,
        FindingView::DnsAnswersDiffer { .. } => 2,
        FindingView::CertExpiresSoon { .. } => 3,
        _ => 4,
    }
}

/// The secondary findings are told in the order of the stages that they come from, and at
/// most one for each.
pub proof fn law_order_of_the_notes(r: Report, i: int, j: int)
    requires
        0 <= i < j < verdict::judgement(r).secondary.len(),
    ensures
        rank(verdict::judgement(r).secondary[i]) < rank(verdict::judgement(r).secondary[j]),
{
    let (a, b, c, d, e) = finding_parts(r);
    assert(verdict::judgement(r).secondary =~= a + b + c + d + e);
}

// ── The grounds ─────────────────────────────────────────────────────────

/// A dead local DNS: each local source that failed is told with its label and its
/// outcome, and no other source is.
pub proof fn law_grounds_of_a_dead_local_dns(r: Report)
    requires
        verdict::judgement(r).culprit is LocalDnsBroken,
    ensures
        verdict::judgement(r).evidence[0] is PublicDnsResolves,
        forall|i: int|
            0 <= i < r.dns.sources@.len() && !((#[trigger] r.dns.sources@[i]).source is Public)
                && !(r.dns.sources@[i].outcome is Resolved) ==> verdict::judgement(
                r,
            ).evidence.contains(
                EvidenceView::LocalDnsSourceFailed {
                    label: r.dns.sources@[i].label@,
                    outcome: r.dns.sources@[i].outcome,
                },
            ),
        forall|k: int|
            1 <= k < verdict::judgement(r).evidence.len() ==> tells_failure(
                #[trigger] verdict::judgement(r).evidence[k],
                r.dns.sources@,
            ),
{
    let s = r.dns.sources@;
    let list = summary::local_failures(s);
    let e = verdict::judgement(r).evidence;
    lemma_local_failures(s);
    assert(e =~= seq![EvidenceView::PublicDnsResolves] + rules::failed_sources(r));
    assert forall|i: int|
        0 <= i < s.len() && !((#[trigger] s[i]).source is Public) && !(
        s[i].outcome is Resolved) implies e.contains(
        EvidenceView::LocalDnsSourceFailed { label: s[i].label@, outcome: s[i].outcome },
    ) by {
        assert(list.contains((s[i].label@, s[i].outcome)));
        let k = choose|k: int| 0 <= k < list.len() && list[k] == (s[i].label@, s[i].outcome);
        assert(e[k + 1] == rules::failed_sources(r)[k]);
    }
    assert forall|k: int| 1 <= k < e.len() implies tells_failure(#[trigger] e[k], s) by {
        assert(e[k] == rules::failed_sources(r)[k - 1]);
        let i = choose|i: int|
            0 <= i < s.len() && !((#[trigger] s[i]).source is Public) && !(s[i].outcome is Resolved)
                && list[k - 1] == (s[i].label@, s[i].outcome);
        assert(s[i].label@ == list[k - 1].0);
    }
}

/// The item tells of a local source that failed.
pub open spec fn tells_failure(e: EvidenceView, sources: Seq<DnsSourceResult>) -> bool {
    exists|i: int|
        0 <= i < sources.len() && !((#[trigger] sources[i]).source is Public) && !(
        sources[i].outcome is Resolved) && e == (EvidenceView::LocalDnsSourceFailed {
            label: sources[i].label@,
            outcome: sources[i].outcome,
        })
}

proof fn lemma_local_failures(s: Seq<DnsSourceResult>)
    ensures
        forall|i: int|
            0 <= i < s.len() && !((#[trigger] s[i]).source is Public) && !(s[i].outcome is Resolved)
                ==> summary::local_failures(s).contains((s[i].label@, s[i].outcome)),
        forall|k: int|
            0 <= k < summary::local_failures(s).len() ==> exists|i: int|
                0 <= i < s.len() && !((#[trigger] s[i]).source is Public) && !(
                s[i].outcome is Resolved) && #[trigger] summary::local_failures(s)[k] == (
                    s[i].label@,
                    s[i].outcome,
                ),
    decreases s.len(),
{
    let list = summary::local_failures(s);
    if s.len() > 0 {
        let front = s.drop_last();
        let rest = summary::local_failures(front);
        lemma_local_failures(front);
        assert forall|i: int|
            0 <= i < s.len() && !((#[trigger] s[i]).source is Public) && !(
            s[i].outcome is Resolved) implies list.contains((s[i].label@, s[i].outcome)) by {
            if i < front.len() {
                assert(front[i] == s[i]);
                let k = choose|k: int| 0 <= k < rest.len() && rest[k] == (s[i].label@, s[i].outcome);
                assert(list[k] == rest[k]);
            } else {
                assert(list[rest.len() as int] == (s[i].label@, s[i].outcome));
            }
        }
        assert forall|k: int| 0 <= k < list.len() implies exists|i: int|
            0 <= i < s.len() && !((#[trigger] s[i]).source is Public) && !(s[i].outcome is Resolved)
                && #[trigger] list[k] == (s[i].label@, s[i].outcome) by {
            if k < rest.len() {
                assert(rest[k] == list[k]);
                let i = choose|i: int|
                    0 <= i < front.len() && !((#[trigger] front[i]).source is Public) && !(
                    front[i].outcome is Resolved) && rest[k] == (front[i].label@, front[i].outcome);
                assert(s[i] == front[i]);
            } else {
                assert(s[s.len() - 1] == s.last());
            }
        }
    }
}

/// The probe went over IPv6.
pub open spec fn by_v6() -> spec_fn(TcpProbe) -> bool {
    |p: TcpProbe| p.ip is V6
}

proof fn lemma_v6_count(probes: Seq<TcpProbe>)
    ensures
        summary::family_count(probes, false, false) == probes.filter(by_v6()).len(),
    decreases probes.len(),
{
    reveal(Seq::filter);
    if probes.len() > 0 {
        lemma_v6_count(probes.drop_last());
    }
}

/// The numbers that a verdict on names and connections gives.
pub proof fn law_grounds_of_names_and_connections(r: Report)
    ensures
        verdict::judgement(r).culprit is LocalDnsSlow ==> exists|a: Millis, b: Millis|
            #![trigger is_least_latency(r.dns.sources@, false, a), is_least_latency(
                r.dns.sources@,
                true,
                b,
            )]
            is_least_latency(r.dns.sources@, false, a) && is_least_latency(r.dns.sources@, true, b)
                && verdict::judgement(r).evidence == seq![
                EvidenceView::LocalDnsLatency { ms: a },
                EvidenceView::PublicDnsLatency { ms: b },
                EvidenceView::LatencyAddedEveryPage,
            ],
        verdict::judgement(r).culprit is Ipv6Broken ==> verdict::judgement(r).evidence == seq![
            EvidenceView::Ipv6ConnectFailed {
                count: r.tcp.probes@.filter(by_v6()).len() as usize,
            },
            EvidenceView::Ipv4Works,
        ],
        verdict::judgement(r).culprit is NameDoesNotExist ==> verdict::judgement(r).headline == (
        verdict::Headline::NameDoesNotExist { host: r.target.host }),
        verdict::judgement(r).culprit is ServerDown ==> verdict::judgement(r).headline == (
        verdict::Headline::ServerDown { port: r.target.port }),
        verdict::judgement(r).culprit is TcpBlocked ==> verdict::judgement(r).headline == if !r.dns.skipped
            && r.dns.sources@.len() > 0 && !knows(r.dns.sources@, true) && !knows(
            r.dns.sources@,
            false,
        ) {
            verdict::Headline::OutboundDead
        } else {
            verdict::Headline::TcpBlocked { port: r.target.port }
        },
{
    let s = r.dns.sources@;
    let p = r.tcp.probes@;
    let j = verdict::judgement(r);
    lemma_knows(s, true);
    lemma_knows(s, false);
    if j.culprit is LocalDnsSlow {
        lemma_best_latency(s, false);
        lemma_best_latency(s, true);
        let a = summary::best_latency(s, true)->0;
        let b = summary::best_latency(s, false)->0;
        assert(is_least_latency(s, false, a) && is_least_latency(s, true, b));
        assert(j.evidence =~= seq![
            EvidenceView::LocalDnsLatency { ms: a },
            EvidenceView::PublicDnsLatency { ms: b },
            EvidenceView::LatencyAddedEveryPage,
        ]);
    }
    if j.culprit is Ipv6Broken {
        lemma_v6_count(p);
        assert(j.evidence =~= seq![
            EvidenceView::Ipv6ConnectFailed { count: p.filter(by_v6()).len() as usize },
            EvidenceView::Ipv4Works,
        ]);
    }
}

/// What a verdict on TLS and on proxies gives as its grounds.
pub proof fn law_grounds_of_tls_and_proxies(r: Report)
    ensures
        verdict::judgement(r).culprit is TlsCertExpired ==> (match verdict::judgement(
            r,
        ).evidence[0] {
            EvidenceView::CertExpiredDaysAgo { days } => match r.tls->0.days_until_expiry {
                Some(left) => left > i64::MIN ==> days == -left,
                None => days == 0,
            },
            _ => false,
        }),
        verdict::judgement(r).culprit is TlsIntercepted && r.tls->0.presented_issuer is Some
            ==> verdict::judgement(r).evidence[0] == (EvidenceView::PresentedIssuer {
            issuer: r.tls->0.presented_issuer->0@,
        }),
        verdict::judgement(r).culprit is TlsCertInvalid ==> {
            let e = verdict::judgement(r).evidence;
            let tls = r.tls->0;
            &&& e[0] == (EvidenceView::ChainVerifyFailed { error: tls.error->0@ })
            &&& tls.presented_issuer is Some ==> e[1] == (EvidenceView::PresentedIssuer {
                issuer: tls.presented_issuer->0@,
            })
            &&& e.contains(EvidenceView::HostnameMismatch) <==> tls.hostname_matches == Some(false)
            &&& e.len() <= 3
        },
        verdict::judgement(r).culprit is ProxyInterference ==> {
            let e = verdict::judgement(r).evidence;
            let proxies = r.env.proxies@;
            &&& e.len() == 3
            &&& e[0] matches EvidenceView::ProxyVarsDetected { vars } && vars.len() == proxies.len()
                && (forall|i: int|
                0 <= i < proxies.len() ==> #[trigger] vars[i] == proxies[i].0@ + "="@
                    + proxies[i].1@)
            &&& e[2] == (EvidenceView::HttpErrorDetail { error: r.http->0.error->0@ })
        },
{
    let j = verdict::judgement(r);
    if j.culprit is TlsCertInvalid {
        let tls = r.tls->0;
        let e = j.evidence;
        let x = EvidenceView::HostnameMismatch;
        let a = seq![EvidenceView::ChainVerifyFailed { error: tls.error->0@ }];
        let b = match tls.presented_issuer {
            Some(issuer) => seq![EvidenceView::PresentedIssuer { issuer: issuer@ }],
            None => Seq::empty(),
        };
        let c = if tls.hostname_matches == Some(false) {
            seq![EvidenceView::HostnameMismatch]
        } else {
            Seq::empty()
        };
        assert(e =~= a + b + c);
        lemma_either(a + b, c, x);
        lemma_either(a, b, x);
        if c.len() > 0 {
            assert(c[0] == x);
        }
    }
}

/// What a verdict on quality gives as its grounds.
pub proof fn law_grounds_of_quality(r: Report)
    ensures
        verdict::judgement(r).culprit is ServerSlow ==> exists|m: Millis| #[trigger]
            is_least_average(r.tcp.probes@, m) && verdict::judgement(r).evidence == seq![
                EvidenceView::ConnectFast { ms: m },
                EvidenceView::TtfbSlow { ms: r.http->0.ttfb_ms->0 },
                EvidenceView::ServerSideProcessing,
            ],
        verdict::judgement(r).culprit is UnstablePath ==> {
            let e = verdict::judgement(r).evidence;
            let path = r.path->0;
            &&& e.contains(EvidenceView::UnstablePathSymptom)
            &&& e.contains(
                EvidenceView::ProbeLoss { sent: path.sent, lost: path.lost, pct: path.loss_pct },
            ) <==> path.loss_pct.whole > 0 && path.loss_pct.part * 10 >= path.loss_pct.whole
            &&& path.avg_ms is Some && path.jitter_ms is Some ==> e.contains(
                EvidenceView::RttStats { avg: path.avg_ms->0, jitter: path.jitter_ms->0 },
            )
        },
        verdict::judgement(r).culprit is PmtuBlackhole ==> {
            let data = r.trace->0->Ran_0;
            verdict::judgement(r).evidence[0] == (EvidenceView::PmtuBlackholeObserved {
                mtu: trace::path_mtu(data.kernel_mtu, data.mtu_probes@)->0,
            })
        },
{
    let j = verdict::judgement(r);
    let e = j.evidence;
    lemma_best_connect(r.tcp.probes@);
    if j.culprit is ServerSlow {
        let m = summary::best_connect(r.tcp.probes@)->0;
        assert(is_least_average(r.tcp.probes@, m));
        assert(e =~= seq![
            EvidenceView::ConnectFast { ms: m },
            EvidenceView::TtfbSlow { ms: r.http->0.ttfb_ms->0 },
            EvidenceView::ServerSideProcessing,
        ]);
    }
    if j.culprit is UnstablePath {
        let path = r.path->0;
        let loss = EvidenceView::ProbeLoss {
            sent: path.sent,
            lost: path.lost,
            pct: path.loss_pct,
        };
        let a = if rules::lossy(r) {
            seq![loss]
        } else {
            Seq::empty()
        };
        let b = if path.avg_ms is Some && path.jitter_ms is Some {
            seq![EvidenceView::RttStats { avg: path.avg_ms->0, jitter: path.jitter_ms->0 }]
        } else {
            Seq::empty()
        };
        let c = seq![EvidenceView::UnstablePathSymptom];
        let h = rules::hop_evidence(r, j.culprit);
        assert(e =~= a + b + c + h);
        lemma_either(a + b + c, h, loss);
        lemma_either(a + b, c, loss);
        lemma_either(a, b, loss);
        if a.len() > 0 {
            assert(a[0] == loss);
        }
        if b.len() > 0 {
            assert(e[a.len() as int] == b[0]);
        }
        assert(e[(a + b).len() as int] == c[0]);
    }
}

/// What a healthy report gives as its grounds: one item for each stage that found
/// something good, with its figures.
pub proof fn law_grounds_of_health(r: Report)
    requires
        verdict::judgement(r).culprit is NoProblem,
    ensures
        ({
            let e = verdict::judgement(r).evidence;
            &&& e.contains(EvidenceView::DnsHealthy) <==> !r.dns.skipped && (knows(
                r.dns.sources@,
                true,
            ) || knows(r.dns.sources@, false))
            &&& forall|ms: Millis| #[trigger]
                e.contains(EvidenceView::TcpHealthy { ms }) <==> tcp_connects(r) && is_least_average(
                    r.tcp.probes@,
                    ms,
                ) && summary::best_connect(r.tcp.probes@) == Some(ms)
            &&& forall|version: Seq<char>, days: i64| #[trigger]
                e.contains(EvidenceView::TlsHealthy { version, days }) <==> (r.tls matches Some(tls)
                    && tls.verified && version == (match tls.version {
                    Some(v) => v@,
                    None => "?"@,
                }) && days == (match tls.days_until_expiry {
                    Some(d) => d,
                    None => 0,
                }))
            &&& forall|status: u16, ttfb: Millis| #[trigger]
                e.contains(EvidenceView::HttpHealthy { status, ttfb }) <==> (
                r.http matches Some(http) && http.status == Some(status) && ttfb.nanos == (
                match http.ttfb_ms {
                    Some(t) => t.nanos,
                    None => 0,
                }))
            &&& forall|loss_pct: crate::measure::Percent, jitter: Millis| #[trigger]
                e.contains(EvidenceView::PathHealthy { loss_pct, jitter }) <==> (
                r.path matches Some(path) && path.loss_pct == loss_pct && jitter.nanos == (
                match path.jitter_ms {
                    Some(j) => j.nanos,
                    None => 0,
                }))
        }),
{
    let e = verdict::judgement(r).evidence;
    let (a, b, c, d, f) = (
        rules::healthy_dns(r),
        rules::healthy_tcp(r),
        rules::healthy_tls(r),
        rules::healthy_http(r),
        rules::healthy_path(r),
    );
    lemma_tcp(r);
    lemma_knows(r.dns.sources@, true);
    lemma_knows(r.dns.sources@, false);
    lemma_best_connect(r.tcp.probes@);
    lemma_dns_ran(r);
    assert forall|x: EvidenceView|
        !(x is AllStagesOk) implies #[trigger] e.contains(x) == (a.contains(x) || b.contains(x)
        || c.contains(x) || d.contains(x) || f.contains(x)) by {
        lemma_either(a, b, x);
        lemma_either(a + b, c, x);
        lemma_either(a + b + c, d, x);
        lemma_either(a + b + c + d, f, x);
        if rules::healthy_stages(r).len() == 0 {
            assert(e =~= seq![EvidenceView::AllStagesOk]);
            lemma_one(EvidenceView::AllStagesOk, x);
        } else {
            assert(e =~= a + b + c + d + f);
        }
    }
    assert forall|x: EvidenceView|
        #![trigger e.contains(x)]
        {
            &&& a.contains(x) <==> a.len() == 1 && a[0] == x
            &&& b.contains(x) <==> b.len() == 1 && b[0] == x
            &&& c.contains(x) <==> c.len() == 1 && c[0] == x
            &&& d.contains(x) <==> d.len() == 1 && d[0] == x
            &&& f.contains(x) <==> f.len() == 1 && f[0] == x
        } by {}
}

proof fn lemma_dns_ran(r: Report)
    ensures
        knows(r.dns.sources@, true) || knows(r.dns.sources@, false) ==> r.dns.sources@.len() > 0,
{
}

/// For a failure on the path, the hop that replied last is told: with its address, its
/// number, and the length of the path. The zone goes by its number, unless the
/// destination replied.
pub proof fn law_last_hop_is_told(r: Report, k: int)
    requires
        r.trace matches Some(TraceReport::Ran(data)) && 0 <= k < data.hops@.len()
            && data.hops@[k].addr is Some && forall|j: int|
            k < j < data.hops@.len() ==> (#[trigger] data.hops@[j]).addr is None,
    ensures
        ({
            let data = r.trace->0->Ran_0;
            let hop = data.hops@[k];
            let v = verdict::judgement(r);
            let on_path = v.culprit is TcpBlocked || v.culprit is ServerDown
                || v.culprit is UnstablePath;
            &&& on_path ==> (match v.evidence.last() {
                EvidenceView::LastRespondingHop { ip, index, path_len } => {
                    &&& ip == hop.addr->0.shown()
                    &&& index == hop.index
                    &&& data.dest_reached ==> path_len == hop.index
                    &&& !data.dest_reached ==> (forall|j: int|
                        0 <= j < data.hops@.len() ==> (#[trigger] data.hops@[j]).index <= path_len)
                    &&& !data.dest_reached ==> (exists|j: int|
                        0 <= j < data.hops@.len() && (#[trigger] data.hops@[j]).index == path_len)
                },
                _ => false,
            })
            &&& v.zone_hint == if !on_path || data.dest_reached {
                None
            } else if hop.index <= 2 {
                Some(trace::HopZone::Home)
            } else if hop.index <= 6 {
                Some(trace::HopZone::Isp)
            } else {
                Some(trace::HopZone::FarSide)
            }
        }),
{
    let data = r.trace->0->Ran_0;
    trace::lemma_last_reply(data.hops@, k);
    trace::lemma_max_index(data.hops@);
    let v = verdict::judgement(r);
    if rules::path_related(v.culprit) {
        assert(v.evidence.last() == rules::hop_evidence(r, v.culprit)[0]);
    }
}

} // verus!
