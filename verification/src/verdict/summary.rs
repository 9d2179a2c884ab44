//! What the DNS and TCP stages amount to, taken over all their sources and
//! probes.

use crate::addr;
use crate::addr::IpAddr;
use crate::measure;
use crate::measure::Millis;
use crate::report::{DnsOutcome, DnsReport, DnsSourceResult, TcpOutcome, TcpProbe, TcpReport};
use crate::text;
use vstd::prelude::*;

verus! {

// ── DNS ─────────────────────────────────────────────────────────────────

/// The DNS stage was run and asked someone.
pub open spec fn dns_ran(dns: DnsReport) -> bool {
    !dns.skipped && dns.sources@.len() > 0
}

/// Some local source (or, where `local` does not hold, some public one) resolved
/// the name.
pub open spec fn resolves(sources: Seq<DnsSourceResult>, local: bool) -> bool {
    exists|i: int| 0 <= i < sources.len() && #[trigger] resolves_at(sources, local, i)
}

pub open spec fn resolves_at(sources: Seq<DnsSourceResult>, local: bool, i: int) -> bool {
    sources[i].local() == local && sources[i].resolved()
}

/// The source gave an answer, be it a refusal.
pub open spec fn answered(s: DnsSourceResult) -> bool {
    !(s.outcome is Timeout) && !(s.outcome is Error)
}

/// Somebody answered, and everybody who answered said that there is no such name.
pub open spec fn all_nxdomain(sources: Seq<DnsSourceResult>) -> bool {
    &&& exists|i: int| 0 <= i < sources.len() && answered(#[trigger] sources[i])
    &&& forall|i: int|
        0 <= i < sources.len() && answered(#[trigger] sources[i]) ==> sources[i].outcome is NxDomain
}

/// All addresses that the local (or the public) sources resolved the name to.
pub open spec fn answers(sources: Seq<DnsSourceResult>, local: bool) -> Seq<Seq<char>>
    decreases sources.len(),
{
    if sources.len() == 0 {
        Seq::empty()
    } else {
        let s = sources.last();
        answers(sources.drop_last(), local) + if s.local() == local && s.resolved() {
            addr::ip_texts(s.ips@)
        } else {
            Seq::empty()
        }
    }
}

/// Those addresses in ascending order of their text, each once.
pub open spec fn answer_list(sources: Seq<DnsSourceResult>, local: bool) -> Seq<Seq<char>> {
    text::sorted_texts(answers(sources, local))
}

/// Both sides gave addresses, and none is common to them.
pub open spec fn disjoint(sources: Seq<DnsSourceResult>) -> bool {
    let l = answer_list(sources, true);
    let p = answer_list(sources, false);
    &&& l.len() > 0
    &&& p.len() > 0
    &&& forall|i: int| 0 <= i < l.len() ==> !p.contains(#[trigger] l[i])
}

/// The shortest latency of the local (or the public) sources that resolved the
/// name.
pub open spec fn best_latency(sources: Seq<DnsSourceResult>, local: bool) -> Option<Millis>
    decreases sources.len(),
{
    if sources.len() == 0 {
        None
    } else {
        let s = sources.last();
        let rest = best_latency(sources.drop_last(), local);
        if s.local() == local && s.resolved() {
            measure::shorter(rest, s.latency_ms)
        } else {
            rest
        }
    }
}

/// Label and outcome of every local source that did not resolve the name.
pub open spec fn local_failures(sources: Seq<DnsSourceResult>) -> Seq<(Seq<char>, DnsOutcome)>
    decreases sources.len(),
{
    if sources.len() == 0 {
        Seq::empty()
    } else {
        let s = sources.last();
        let rest = local_failures(sources.drop_last());
        if s.local() && !s.resolved() {
            rest.push((s.label@, s.outcome))
        } else {
            rest
        }
    }
}

/// The DNS stage in brief.
pub struct DnsView {
    pub ran: bool,
    pub local_ok: bool,
    pub public_ok: bool,
    pub any_ok: bool,
    pub all_nxdomain: bool,
    pub answers_disjoint: bool,
    pub local_best_ms: Option<Millis>,
    pub public_best_ms: Option<Millis>,
    pub local_failures: Vec<(String, DnsOutcome)>,
    pub local_ips: Vec<String>,
    pub public_ips: Vec<String>,
}

pub open spec fn failure_views(list: Seq<(String, DnsOutcome)>) -> Seq<(Seq<char>, DnsOutcome)> {
    Seq::new(list.len(), |i: int| (list[i].0@, list[i].1))
}

fn any_resolves(sources: &[DnsSourceResult], local: bool) -> (r: bool)
    ensures
        r == resolves(sources@, local),
{
    let mut i: usize = 0;
    while i < sources.len()
        invariant
            i <= sources.len(),
            forall|j: int| 0 <= j < i ==> !#[trigger] resolves_at(sources@, local, j),
        decreases sources.len() - i,
    {
        if sources[i].is_local() == local && sources[i].is_ok() {
            assert(resolves_at(sources@, local, i as int));
            return true;
        }
        i = i + 1;
    }
    false
}

fn is_all_nxdomain(sources: &[DnsSourceResult]) -> (r: bool)
    ensures
        r == all_nxdomain(sources@),
{
    let mut some = false;
    let mut i: usize = 0;
    while i < sources.len()
        invariant
            i <= sources.len(),
            some ==> exists|j: int| 0 <= j < sources@.len() && answered(#[trigger] sources@[j]),
            !some ==> forall|j: int| 0 <= j < i ==> !answered(#[trigger] sources@[j]),
            forall|j: int|
                0 <= j < i && answered(#[trigger] sources@[j]) ==> sources@[j].outcome is NxDomain,
        decreases sources.len() - i,
    {
        match &sources[i].outcome {
            DnsOutcome::Timeout => {},
            DnsOutcome::Error(_) => {},
            DnsOutcome::NxDomain => {
                some = true;
                assert(answered(sources@[i as int]));
            },
            _ => {
                assert(answered(sources@[i as int]));
                return false;
            },
        }
        i = i + 1;
    }
    some
}

fn push_sorted_ips(list: &mut Vec<String>, ips: &[IpAddr], prior: Ghost<Seq<Seq<char>>>)
    requires
        text::texts(old(list)@) == text::sorted_texts(prior@),
    ensures
        text::texts(final(list)@) == text::sorted_texts(prior@ + addr::ip_texts(ips@)),
{
    let mut i: usize = 0;
    assert(prior@ + addr::ip_texts(ips@).take(0) == prior@);
    while i < ips.len()
        invariant
            i <= ips.len(),
            text::texts(list@) == text::sorted_texts(prior@ + addr::ip_texts(ips@).take(i as int)),
        decreases ips.len() - i,
    {
        let ghost now = prior@ + addr::ip_texts(ips@).take(i + 1);
        assert(now.drop_last() == prior@ + addr::ip_texts(ips@).take(i as int));
        assert(now.last() == ips@[i as int].shown());
        text::insert_sorted(list, ips[i].to_text());
        i = i + 1;
    }
    assert(addr::ip_texts(ips@).take(ips@.len() as int) == addr::ip_texts(ips@));
}

fn collect_answers(sources: &[DnsSourceResult], local: bool) -> (list: Vec<String>)
    ensures
        text::texts(list@) == answer_list(sources@, local),
{
    let mut list: Vec<String> = Vec::new();
    let mut i: usize = 0;
    assert(sources@.take(0) == Seq::<DnsSourceResult>::empty());
    assert(text::texts(list@) == Seq::<Seq<char>>::empty());
    while i < sources.len()
        invariant
            i <= sources.len(),
            text::texts(list@) == answer_list(sources@.take(i as int), local),
        decreases sources.len() - i,
    {
        let ghost before = answers(sources@.take(i as int), local);
        assert(sources@.take(i + 1).drop_last() == sources@.take(i as int));
        assert(sources@.take(i + 1).last() == sources@[i as int]);
        if sources[i].is_local() == local && sources[i].is_ok() {
            push_sorted_ips(&mut list, sources[i].ips.as_slice(), Ghost(before));
        } else {
            assert(before + Seq::<Seq<char>>::empty() == before);
        }
        i = i + 1;
    }
    assert(sources@.take(sources@.len() as int) == sources@);
    list
}

fn lists_text(list: &[String], t: &str) -> (r: bool)
    ensures
        r == text::texts(list@).contains(t@),
{
    let mut i: usize = 0;
    while i < list.len()
        invariant
            i <= list.len(),
            forall|j: int| 0 <= j < i ==> #[trigger] text::texts(list@)[j] != t@,
        decreases list.len() - i,
    {
        if text::same_text(list[i].as_str(), t) {
            assert(text::texts(list@)[i as int] == t@);
            return true;
        }
        i = i + 1;
    }
    false
}

fn share_nothing(a: &[String], b: &[String]) -> (r: bool)
    ensures
        r == (forall|i: int|
            0 <= i < text::texts(a@).len() ==> !text::texts(b@).contains(
                #[trigger] text::texts(a@)[i],
            )),
{
    let mut i: usize = 0;
    while i < a.len()
        invariant
            i <= a.len(),
            forall|j: int|
                0 <= j < i ==> !text::texts(b@).contains(#[trigger] text::texts(a@)[j]),
        decreases a.len() - i,
    {
        if lists_text(b, a[i].as_str()) {
            assert(text::texts(b@).contains(text::texts(a@)[i as int]));
            return false;
        }
        i = i + 1;
    }
    true
}

fn find_best(sources: &[DnsSourceResult], local: bool) -> (r: Option<Millis>)
    ensures
        r == best_latency(sources@, local),
{
    let mut best: Option<Millis> = None;
    let mut i: usize = 0;
    while i < sources.len()
        invariant
            i <= sources.len(),
            best == best_latency(sources@.take(i as int), local),
        decreases sources.len() - i,
    {
        assert(sources@.take(i + 1).drop_last() == sources@.take(i as int));
        assert(sources@.take(i + 1).last() == sources@[i as int]);
        if sources[i].is_local() == local && sources[i].is_ok() {
            best = measure::shorter_of(best, sources[i].latency_ms);
        }
        i = i + 1;
    }
    assert(sources@.take(sources@.len() as int) == sources@);
    best
}

fn collect_failures(sources: &[DnsSourceResult]) -> (list: Vec<(String, DnsOutcome)>)
    ensures
        failure_views(list@) == local_failures(sources@),
{
    let mut list: Vec<(String, DnsOutcome)> = Vec::new();
    let mut i: usize = 0;
    while i < sources.len()
        invariant
            i <= sources.len(),
            failure_views(list@) == local_failures(sources@.take(i as int)),
        decreases sources.len() - i,
    {
        assert(sources@.take(i + 1).drop_last() == sources@.take(i as int));
        assert(sources@.take(i + 1).last() == sources@[i as int]);
        if sources[i].is_local() && !sources[i].is_ok() {
            let ghost before = failure_views(list@);
            list.push((sources[i].label.clone(), sources[i].outcome.clone()));
            assert(failure_views(list@) == before.push(
                (sources@[i as int].label@, sources@[i as int].outcome),
            ));
        }
        i = i + 1;
    }
    assert(sources@.take(sources@.len() as int) == sources@);
    list
}

impl DnsView {
    /// This is the stage in brief.
    pub open spec fn sums_up(self, dns: DnsReport) -> bool {
        &&& self.ran == dns_ran(dns)
        &&& self.local_ok == resolves(dns.sources@, true)
        &&& self.public_ok == resolves(dns.sources@, false)
        &&& self.any_ok == (self.local_ok || self.public_ok)
        &&& self.all_nxdomain == all_nxdomain(dns.sources@)
        &&& self.answers_disjoint == disjoint(dns.sources@)
        &&& self.local_best_ms == best_latency(dns.sources@, true)
        &&& self.public_best_ms == best_latency(dns.sources@, false)
        &&& failure_views(self.local_failures@) == local_failures(dns.sources@)
        &&& text::texts(self.local_ips@) == answer_list(dns.sources@, true)
        &&& text::texts(self.public_ips@) == answer_list(dns.sources@, false)
    }

    pub fn from(dns: &DnsReport) -> (d: Self)
        ensures
            d.sums_up(*dns),
    {
        let sources = dns.sources.as_slice();
        let ran = !dns.skipped && sources.len() > 0;
        let local_ok = any_resolves(sources, true);
        let public_ok = any_resolves(sources, false);
        let local_ips = collect_answers(sources, true);
        let public_ips = collect_answers(sources, false);
        assert(text::texts(local_ips@).len() == local_ips@.len());
        assert(text::texts(public_ips@).len() == public_ips@.len());
        let answers_disjoint = local_ips.len() > 0 && public_ips.len() > 0 && share_nothing(
            local_ips.as_slice(),
            public_ips.as_slice(),
        );
        DnsView {
            ran,
            local_ok,
            public_ok,
            any_ok: local_ok || public_ok,
            all_nxdomain: is_all_nxdomain(sources),
            answers_disjoint,
            local_best_ms: find_best(sources, true),
            public_best_ms: find_best(sources, false),
            local_failures: collect_failures(sources),
            local_ips,
            public_ips,
        }
    }
}

// ── TCP ─────────────────────────────────────────────────────────────────

/// Some probe connected.
pub open spec fn connects(probes: Seq<TcpProbe>) -> bool {
    exists|i: int| 0 <= i < probes.len() && (#[trigger] probes[i]).connected()
}

/// There were probes, and none connected.
pub open spec fn all_fail(probes: Seq<TcpProbe>) -> bool {
    probes.len() > 0 && !connects(probes)
}

/// There were probes, and every one was refused.
pub open spec fn all_refused(probes: Seq<TcpProbe>) -> bool {
    &&& all_fail(probes)
    &&& forall|i: int| 0 <= i < probes.len() ==> (#[trigger] probes[i]).outcome is Refused
}

/// How many probes went to addresses of one family; where `ok` holds, how many
/// of them connected.
pub open spec fn family_count(probes: Seq<TcpProbe>, v4: bool, ok: bool) -> nat
    decreases probes.len(),
{
    if probes.len() == 0 {
        0
    } else {
        let p = probes.last();
        family_count(probes.drop_last(), v4, ok) + if (p.ip is V4) == v4 && (ok ==> p.connected()) {
            1nat
        } else {
            0nat
        }
    }
}

/// The shortest average connect time of a probe.
pub open spec fn best_connect(probes: Seq<TcpProbe>) -> Option<Millis>
    decreases probes.len(),
{
    if probes.len() == 0 {
        None
    } else {
        measure::shorter(best_connect(probes.drop_last()), probes.last().avg_ms)
    }
}

/// The TCP stage in brief.
pub struct TcpView {
    pub ran: bool,
    pub any_ok: bool,
    pub all_fail: bool,
    pub all_refused: bool,
    pub v4_total: usize,
    pub v4_ok: usize,
    pub v6_total: usize,
    pub v6_ok: usize,
    pub best_connect_ms: Option<Millis>,
}

/// Whether some probe connected.
pub fn any_connects(probes: &[TcpProbe]) -> (r: bool)
    ensures
        r == connects(probes@),
{
    let mut i: usize = 0;
    while i < probes.len()
        invariant
            i <= probes.len(),
            forall|j: int| 0 <= j < i ==> !(#[trigger] probes@[j]).connected(),
        decreases probes.len() - i,
    {
        if probes[i].is_ok() {
            return true;
        }
        i = i + 1;
    }
    false
}

fn every_refused(probes: &[TcpProbe]) -> (r: bool)
    ensures
        r == (forall|i: int| 0 <= i < probes@.len() ==> (#[trigger] probes@[i]).outcome is Refused),
{
    let mut i: usize = 0;
    while i < probes.len()
        invariant
            i <= probes.len(),
            forall|j: int| 0 <= j < i ==> (#[trigger] probes@[j]).outcome is Refused,
        decreases probes.len() - i,
    {
        if !matches!(probes[i].outcome, TcpOutcome::Refused) {
            return false;
        }
        i = i + 1;
    }
    true
}

fn count_family(probes: &[TcpProbe], v4: bool, ok: bool) -> (n: usize)
    ensures
        n == family_count(probes@, v4, ok),
{
    let mut n: usize = 0;
    let mut i: usize = 0;
    while i < probes.len()
        invariant
            i <= probes.len(),
            n <= i,
            n == family_count(probes@.take(i as int), v4, ok),
        decreases probes.len() - i,
    {
        assert(probes@.take(i + 1).drop_last() == probes@.take(i as int));
        assert(probes@.take(i + 1).last() == probes@[i as int]);
        if probes[i].ip.is_v4() == v4 && (!ok || probes[i].is_ok()) {
            n = n + 1;
        }
        i = i + 1;
    }
    assert(probes@.take(probes@.len() as int) == probes@);
    n
}

fn find_best_connect(probes: &[TcpProbe]) -> (r: Option<Millis>)
    ensures
        r == best_connect(probes@),
{
    let mut best: Option<Millis> = None;
    let mut i: usize = 0;
    while i < probes.len()
        invariant
            i <= probes.len(),
            best == best_connect(probes@.take(i as int)),
        decreases probes.len() - i,
    {
        assert(probes@.take(i + 1).drop_last() == probes@.take(i as int));
        assert(probes@.take(i + 1).last() == probes@[i as int]);
        best = measure::shorter_of(best, probes[i].avg_ms);
        i = i + 1;
    }
    assert(probes@.take(probes@.len() as int) == probes@);
    best
}

impl TcpView {
    /// This is the stage in brief.
    pub open spec fn sums_up(self, tcp: TcpReport) -> bool {
        &&& self.ran == (tcp.probes@.len() > 0)
        &&& self.any_ok == connects(tcp.probes@)
        &&& self.all_fail == all_fail(tcp.probes@)
        &&& self.all_refused == all_refused(tcp.probes@)
        &&& self.v4_total == family_count(tcp.probes@, true, false)
        &&& self.v4_ok == family_count(tcp.probes@, true, true)
        &&& self.v6_total == family_count(tcp.probes@, false, false)
        &&& self.v6_ok == family_count(tcp.probes@, false, true)
        &&& self.best_connect_ms == best_connect(tcp.probes@)
    }

    pub fn from(tcp: &TcpReport) -> (t: Self)
        ensures
            t.sums_up(*tcp),
    {
        let probes = tcp.probes.as_slice();
        let ran = probes.len() > 0;
        let any_ok = any_connects(probes);
        let all_fail = ran && !any_ok;
        TcpView {
            ran,
            any_ok,
            all_fail,
            all_refused: all_fail && every_refused(probes),
            v4_total: count_family(probes, true, false),
            v4_ok: count_family(probes, true, true),
            v6_total: count_family(probes, false, false),
            v6_ok: count_family(probes, false, true),
            best_connect_ms: find_best_connect(probes),
        }
    }
}

} // verus!
