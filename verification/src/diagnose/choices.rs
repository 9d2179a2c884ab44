//! What the stages of a diagnosis are run on, told in terms of the results before
//! them.

use crate::addr;
use crate::addr::IpAddr;
use crate::diagnose;
use crate::diagnose::{Facts, Position, State, StepView};
use crate::report::{DnsSourceResult, HttpReport, StageName, TcpProbe};
use crate::target::TargetView;
use crate::text;
use vstd::prelude::*;

verus! {

// ── The first that serves ───────────────────────────────────────────────

proof fn lemma_first_connected(probes: Seq<TcpProbe>, k: int)
    requires
        0 <= k <= probes.len(),
        k < probes.len() ==> probes[k].successes > 0,
        forall|j: int| 0 <= j < k ==> (#[trigger] probes[j]).successes == 0,
    ensures
        diagnose::first_connected(probes) == if k < probes.len() {
            Some(probes[k].ip)
        } else {
            None
        },
    decreases probes.len(),
{
    if k > 0 {
        let rest = probes.drop_first();
        assert(probes[0].successes == 0);
        assert forall|j: int| 0 <= j < k - 1 implies (#[trigger] rest[j]).successes == 0 by {
            assert(rest[j] == probes[j + 1]);
        }
        if k < probes.len() {
            assert(rest[k - 1] == probes[k]);
        }
        lemma_first_connected(rest, k - 1);
    }
}

proof fn lemma_first_answer(sources: Seq<DnsSourceResult>, k: int)
    requires
        0 <= k <= sources.len(),
        k < sources.len() ==> sources[k].outcome is Resolved && sources[k].ips@.len() > 0,
        forall|j: int|
            0 <= j < k ==> !((#[trigger] sources[j]).outcome is Resolved) || sources[j].ips@.len()
                == 0,
    ensures
        diagnose::first_answer(sources) == if k < sources.len() {
            sources[k].ips@
        } else {
            Seq::empty()
        },
    decreases sources.len(),
{
    if k > 0 {
        let rest = sources.drop_first();
        assert(!(sources[0].outcome is Resolved) || sources[0].ips@.len() == 0);
        assert forall|j: int| 0 <= j < k - 1 implies !((#[trigger] rest[j]).outcome is Resolved)
            || rest[j].ips@.len() == 0 by {
            assert(rest[j] == sources[j + 1]);
        }
        if k < sources.len() {
            assert(rest[k - 1] == sources[k]);
        }
        lemma_first_answer(rest, k - 1);
    }
}

proof fn lemma_first_latency(sources: Seq<DnsSourceResult>, k: int)
    requires
        0 <= k <= sources.len(),
        k < sources.len() ==> sources[k].outcome is Resolved,
        forall|j: int| 0 <= j < k ==> !((#[trigger] sources[j]).outcome is Resolved),
    ensures
        diagnose::first_latency(sources) == if k < sources.len() {
            sources[k].latency_ms
        } else {
            None
        },
    decreases sources.len(),
{
    if k > 0 {
        let rest = sources.drop_first();
        assert(!(sources[0].outcome is Resolved));
        assert forall|j: int| 0 <= j < k - 1 implies !((#[trigger] rest[j]).outcome is Resolved) by {
            assert(rest[j] == sources[j + 1]);
        }
        if k < sources.len() {
            assert(rest[k - 1] == sources[k]);
        }
        lemma_first_latency(rest, k - 1);
    }
}

proof fn lemma_first_average(probes: Seq<TcpProbe>, k: int)
    requires
        0 <= k <= probes.len(),
        k < probes.len() ==> probes[k].avg_ms is Some,
        forall|j: int| 0 <= j < k ==> (#[trigger] probes[j]).avg_ms is None,
    ensures
        diagnose::first_average(probes) == if k < probes.len() {
            probes[k].avg_ms
        } else {
            None
        },
    decreases probes.len(),
{
    if k > 0 {
        let rest = probes.drop_first();
        assert(probes[0].avg_ms is None);
        assert forall|j: int| 0 <= j < k - 1 implies (#[trigger] rest[j]).avg_ms is None by {
            assert(rest[j] == probes[j + 1]);
        }
        if k < probes.len() {
            assert(rest[k - 1] == probes[k]);
        }
        lemma_first_average(rest, k - 1);
    }
}

/// The latency that counts is that of the first source that resolved the name.
pub proof fn law_first_latency(sources: Seq<DnsSourceResult>, k: int)
    requires
        0 <= k <= sources.len(),
        k < sources.len() ==> sources[k].outcome is Resolved,
        forall|j: int| 0 <= j < k ==> !((#[trigger] sources[j]).outcome is Resolved),
    ensures
        k < sources.len() ==> diagnose::first_latency(sources) == sources[k].latency_ms,
        k == sources.len() ==> diagnose::first_latency(sources) is None,
{
    lemma_first_latency(sources, k);
}

/// The connect time that counts is that of the first probe that has one.
pub proof fn law_first_average(probes: Seq<TcpProbe>, k: int)
    requires
        0 <= k <= probes.len(),
        k < probes.len() ==> probes[k].avg_ms is Some,
        forall|j: int| 0 <= j < k ==> (#[trigger] probes[j]).avg_ms is None,
    ensures
        k < probes.len() ==> diagnose::first_average(probes) == probes[k].avg_ms,
        k == probes.len() ==> diagnose::first_average(probes) is None,
{
    lemma_first_average(probes, k);
}

// ── The addresses ───────────────────────────────────────────────────────

/// TCP connects to the host itself where it is an address, whatever DNS said.
pub proof fn law_address_is_connected_to_directly(s: State, ip: IpAddr)
    requires
        s.position == Position::Before(StageName::Tcp),
        s.setup.target.host@ == ip.shown(),
    ensures
        diagnose::decision(s, false) == StepView::Tcp(seq![ip]),
{
    addr::laws::law_addresses_read_back(ip);
}

/// Else TCP connects to the addresses of the first DNS source that gave any, in their
/// order; where none did, there is nothing to connect to.
pub proof fn law_first_answer_is_connected_to(s: State, k: int)
    requires
        s.position == Position::Before(StageName::Tcp),
        addr::ip_of(s.setup.target.host@) is None,
        ({
            let sources = s.facts.dns.sources@;
            &&& 0 <= k <= sources.len()
            &&& k < sources.len() ==> sources[k].outcome is Resolved && sources[k].ips@.len() > 0
            &&& forall|j: int|
                0 <= j < k ==> !((#[trigger] sources[j]).outcome is Resolved)
                    || sources[j].ips@.len() == 0
        }),
    ensures
        k < s.facts.dns.sources@.len() ==> diagnose::decision(s, false) == StepView::Tcp(
            s.facts.dns.sources@[k].ips@,
        ),
        k == s.facts.dns.sources@.len() ==> diagnose::decision(s, false) is Nothing,
{
    lemma_first_answer(s.facts.dns.sources@, k);
}

/// The stages after TCP run on the address of the first probe that connected, and
/// each of them runs exactly where the target asks for it.
pub proof fn law_later_stages_use_what_connected(s: State, k: int)
    requires
        ({
            let probes = s.facts.tcp.probes@;
            &&& 0 <= k < probes.len()
            &&& probes[k].successes > 0
            &&& forall|j: int| 0 <= j < k ==> (#[trigger] probes[j]).successes == 0
        }),
    ensures
        ({
            let ip = s.facts.tcp.probes@[k].ip;
            let t = s.setup.target;
            let d = diagnose::decision(s, false);
            &&& s.position == Position::Before(StageName::Tls) ==> d == if t.use_tls {
                StepView::Tls(ip)
            } else {
                StepView::Nothing
            }
            &&& s.position == Position::Before(StageName::Http) ==> (d is Http <==> t.do_http) && (
            d is Nothing <==> !t.do_http)
            &&& s.position == Position::Before(StageName::Quic) ==> d == if t.use_tls && t.do_http {
                StepView::Quic(ip)
            } else {
                StepView::Nothing
            }
            &&& s.position == Position::Before(StageName::Path) ==> d == StepView::Path(ip)
            &&& s.position == Position::Before(StageName::Trace) ==> d == StepView::Trace(ip) || d
                == StepView::Nothing
        }),
{
    lemma_first_connected(s.facts.tcp.probes@, k);
    assert(s.facts.tcp.probes@[k].connected());
}

/// Where no probe connected, no stage that needs a connection runs, and the trace goes
/// to the first address there is.
pub proof fn law_nothing_runs_on_a_dead_address(s: State)
    requires
        forall|j: int|
            0 <= j < s.facts.tcp.probes@.len() ==> (#[trigger] s.facts.tcp.probes@[j]).successes
                == 0,
    ensures
        ({
            let d = diagnose::decision(s, false);
            &&& s.position == Position::Before(StageName::Tls) ==> d is Nothing
            &&& s.position == Position::Before(StageName::Http) ==> d is Nothing
            &&& s.position == Position::Before(StageName::Quic) ==> d is Nothing
            &&& s.position == Position::Before(StageName::Path) ==> d is Nothing
            &&& s.position == Position::Before(StageName::Trace) ==> d is Nothing || (s.ips().len()
                > 0 && d == StepView::Trace(s.ips()[0]))
        }),
{
    let probes = s.facts.tcp.probes@;
    lemma_first_connected(probes, probes.len() as int);
    assert forall|j: int| 0 <= j < probes.len() implies !(#[trigger] probes[j]).connected() by {
        assert(probes[j].successes == 0);
    }
}

/// The trace runs, on whatever address there is, exactly where it is forced, a TCP
/// probe timed out, packets were lost, or the jitter was above 50 ms.
pub proof fn law_when_the_trace_runs(s: State)
    requires
        s.position == Position::Before(StageName::Trace),
        s.ips().len() > 0,
    ensures
        diagnose::decision(s, false) is Trace <==> {
            ||| s.setup.force_trace
            ||| exists|i: int|
                0 <= i < s.facts.tcp.probes@.len() && (
                #[trigger] s.facts.tcp.probes@[i]).outcome is Timeout
            ||| s.facts.path matches Some(p) && ((p.loss_pct.part > 0 && p.loss_pct.whole > 0) || (
            p.jitter_ms matches Some(j) && j.nanos > 50_000_000))
        },
        diagnose::decision(s, false) is Trace || diagnose::decision(s, false) is Nothing,
{
}

// ── The timings of HTTP ─────────────────────────────────────────────────

/// The HTTP result takes the times of the earlier stages from them, and keeps all
/// that it measured itself.
pub proof fn law_http_timings(http: HttpReport, facts: Facts, k: int, m: int)
    requires
        0 <= k <= facts.dns.sources@.len(),
        k < facts.dns.sources@.len() ==> facts.dns.sources@[k].outcome is Resolved,
        forall|j: int|
            0 <= j < k ==> !((#[trigger] facts.dns.sources@[j]).outcome is Resolved),
        0 <= m <= facts.tcp.probes@.len(),
        m < facts.tcp.probes@.len() ==> facts.tcp.probes@[m].avg_ms is Some,
        forall|j: int| 0 <= j < m ==> (#[trigger] facts.tcp.probes@[j]).avg_ms is None,
    ensures
        ({
            let t = diagnose::with_timings(http, facts);
            &&& t.dns_ms == if k < facts.dns.sources@.len() {
                facts.dns.sources@[k].latency_ms
            } else {
                None
            }
            &&& t.connect_ms == if m < facts.tcp.probes@.len() {
                facts.tcp.probes@[m].avg_ms
            } else {
                None
            }
            &&& facts.tls is None ==> t.tls_ms is None
            &&& facts.tls is Some ==> t.tls_ms == facts.tls->0.handshake_ms
            &&& t.status == http.status && t.error == http.error
            &&& t.redirect_chain == http.redirect_chain
            &&& t.ttfb_ms == http.ttfb_ms && t.total_ms == http.total_ms
            &&& t.h3_advertised == http.h3_advertised && t.alt_svc == http.alt_svc
        }),
{
    lemma_first_latency(facts.dns.sources@, k);
    lemma_first_average(facts.tcp.probes@, m);
}

// ── The URL ─────────────────────────────────────────────────────────────

/// A port other than the default of the scheme is part of the URL, and an IPv6
/// address stands in brackets.
pub proof fn law_url_of_an_address(t: TargetView, ip: IpAddr)
    requires
        t.host == ip.shown(),
    ensures
        ({
            let scheme = if t.use_tls {
                "https://"@
            } else {
                "http://"@
            };
            let host = if ip is V6 {
                "["@ + t.host + "]"@
            } else {
                t.host
            };
            let by_default = (t.use_tls && t.port == 443) || (!t.use_tls && t.port == 80);
            &&& by_default ==> diagnose::url_of(t) == scheme + host + t.path
            &&& !by_default ==> diagnose::url_of(t) == scheme + host + ":"@ + text::dec(
                t.port as nat,
            ) + t.path
        }),
{
    addr::laws::law_addresses_read_back(ip);
}

/// The URL of a name is made of the scheme, the name, the port where it is not the default
/// of the scheme, and the path.
pub proof fn law_url_of_a_name(t: TargetView)
    requires
        addr::ip_of(t.host) is None,
    ensures
        t.use_tls && t.port == 443 ==> diagnose::url_of(t) == "https://"@ + t.host + t.path,
        t.use_tls && t.port != 443 ==> diagnose::url_of(t) == "https://"@ + t.host + ":"@
            + text::dec(t.port as nat) + t.path,
        !t.use_tls && t.port == 80 ==> diagnose::url_of(t) == "http://"@ + t.host + t.path,
        !t.use_tls && t.port != 80 ==> diagnose::url_of(t) == "http://"@ + t.host + ":"@
            + text::dec(t.port as nat) + t.path,
{
}

} // verus!
