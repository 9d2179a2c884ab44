//! What the timeline and the summary of a watch promise.

use crate::diagnose;
use crate::i18n;
use crate::i18n::{Lang, MsgKey};
use crate::measure;
use crate::measure::{Millis, Percent};
use crate::report::Report;
use crate::text;
use crate::verdict::{Culprit, RenderedVerdict};
use crate::watch;
use crate::watch::{Tally, TimelineEntry};
use vstd::prelude::*;

verus! {

// ── The timeline ────────────────────────────────────────────────────────

/// The time that the first DNS source with an answer took.
pub open spec fn is_dns_time(r: Report, t: Option<Millis>) -> bool {
    let sources = r.dns.sources@;
    ||| {
        &&& t is None
        &&& forall|j: int| 0 <= j < sources.len() ==> !((#[trigger] sources[j]).outcome is Resolved)
    }
    ||| exists|k: int|
        0 <= k < sources.len() && (#[trigger] sources[k]).outcome is Resolved
            && sources[k].latency_ms == t && forall|j: int|
            0 <= j < k ==> !((#[trigger] sources[j]).outcome is Resolved)
}

/// The average of the first TCP probe that has one.
pub open spec fn is_tcp_time(r: Report, t: Option<Millis>) -> bool {
    let probes = r.tcp.probes@;
    ||| {
        &&& t is None
        &&& forall|j: int| 0 <= j < probes.len() ==> (#[trigger] probes[j]).avg_ms is None
    }
    ||| exists|k: int|
        0 <= k < probes.len() && (#[trigger] probes[k]).avg_ms is Some && probes[k].avg_ms == t
            && forall|j: int| 0 <= j < k ==> (#[trigger] probes[j]).avg_ms is None
}

/// The time to the first byte that HTTP measured.
pub open spec fn is_first_byte(r: Report, t: Option<Millis>) -> bool {
    if r.http is Some {
        t == r.http->0.ttfb_ms
    } else {
        t is None
    }
}

/// The line of a healthy run gives the DNS time, the TCP time, the time to the first
/// byte and the loss, in that order and each under its name.
pub proof fn law_healthy_line(
    e: TimelineEntry,
    r: Report,
    v: RenderedVerdict,
    lang: Lang,
    dns: Option<Millis>,
    tcp: Option<Millis>,
    first_byte: Option<Millis>,
)
    requires
        watch::entry_shows(e, r, v, lang),
        v.culprit is NoProblem,
        is_dns_time(r, dns),
        is_tcp_time(r, tcp),
        is_first_byte(r, first_byte),
    ensures
        e is Healthy,
        ({
            let loss = if r.path is Some {
                text::dec(r.path->0.loss_pct.shown()) + "%"@
            } else {
                "-"@
            };
            e->Healthy_0@ == "OK (dns "@ + measure::ms_text(dns) + " / tcp "@ + measure::ms_text(
                tcp,
            ) + " / ttfb "@ + measure::ms_text(first_byte) + " / loss "@ + loss + ")"@
        }),
{
    lemma_dns_time(r, dns);
    lemma_tcp_time(r, tcp);
}

proof fn lemma_dns_time(r: Report, t: Option<Millis>)
    requires
        is_dns_time(r, t),
    ensures
        diagnose::first_latency(r.dns.sources@) == t,
{
    let sources = r.dns.sources@;
    if t is None && (forall|j: int|
        0 <= j < sources.len() ==> !((#[trigger] sources[j]).outcome is Resolved)) {
        diagnose::choices::law_first_latency(sources, sources.len() as int);
    } else {
        let k = choose|k: int|
            0 <= k < sources.len() && (#[trigger] sources[k]).outcome is Resolved
                && sources[k].latency_ms == t && forall|j: int|
                0 <= j < k ==> !((#[trigger] sources[j]).outcome is Resolved);
        diagnose::choices::law_first_latency(sources, k);
    }
}

proof fn lemma_tcp_time(r: Report, t: Option<Millis>)
    requires
        is_tcp_time(r, t),
    ensures
        diagnose::first_average(r.tcp.probes@) == t,
{
    let probes = r.tcp.probes@;
    if t is None && (forall|j: int|
        0 <= j < probes.len() ==> (#[trigger] probes[j]).avg_ms is None) {
        diagnose::choices::law_first_average(probes, probes.len() as int);
    } else {
        let k = choose|k: int|
            0 <= k < probes.len() && (#[trigger] probes[k]).avg_ms is Some && probes[k].avg_ms == t
                && forall|j: int| 0 <= j < k ==> (#[trigger] probes[j]).avg_ms is None;
        diagnose::choices::law_first_average(probes, k);
    }
}

proof fn lemma_cut(front: Seq<char>, p: Seq<char>, a: Seq<char>, b: Seq<char>, c: Seq<char>)
    ensures
        ({
            let x = front + " / ttfb "@ + p + a + b + c;
            let n = front.len() as int + 1;
            let shown = "/ ttfb "@ + p;
            &&& n + shown.len() <= x.len()
            &&& x.take(n) == front.push(' ')
            &&& x.skip(n).take(shown.len() as int) == shown
            &&& x.skip(n).take("/ ttfb "@.len() as int) == "/ ttfb "@
        }),
{
    reveal_strlit(" / ttfb ");
    reveal_strlit("/ ttfb ");
    let x = front + " / ttfb "@ + p + a + b + c;
    let n = front.len() as int + 1;
    let shown = "/ ttfb "@ + p;
    assert(front + " / ttfb "@ =~= front.push(' ') + "/ ttfb "@);
    assert(x =~= front.push(' ') + (shown + (a + b + c)));
    assert(x.skip(n) =~= shown + (a + b + c));
    assert(shown + (a + b + c) =~= "/ ttfb "@ + (p + (a + b + c)));
}

/// What HTTP measured shows only from the time to the first byte on: two healthy runs
/// that differ in nothing else have the same line before it.
pub proof fn law_http_shows_behind_tcp(
    a: TimelineEntry,
    b: TimelineEntry,
    r: Report,
    s: Report,
    v: RenderedVerdict,
    w: RenderedVerdict,
    lang: Lang,
) -> (n: int)
    requires
        watch::entry_shows(a, r, v, lang),
        watch::entry_shows(b, s, w, lang),
        v.culprit is NoProblem,
        w.culprit is NoProblem,
        r.dns.sources@ == s.dns.sources@,
        r.tcp.probes@ == s.tcp.probes@,
        r.http is Some,
    ensures
        0 <= n <= a->Healthy_0@.len(),
        n <= b->Healthy_0@.len(),
        a->Healthy_0@.take(n) == b->Healthy_0@.take(n),
        ({
            let rest = a->Healthy_0@.skip(n);
            let shown = "/ ttfb "@ + measure::ms_text(r.http->0.ttfb_ms);
            shown.len() <= rest.len() && rest.take(shown.len() as int) == shown
        }),
        ({
            let rest = b->Healthy_0@.skip(n);
            "/ ttfb "@.len() <= rest.len() && rest.take("/ ttfb "@.len() as int) == "/ ttfb "@
        }),
{
    let front = "OK (dns "@ + measure::ms_text(diagnose::first_latency(r.dns.sources@)) + " / tcp "@
        + measure::ms_text(diagnose::first_average(r.tcp.probes@));
    let p = measure::ms_text(r.http->0.ttfb_ms);
    let q = measure::ms_text(
        if s.http is Some {
            s.http->0.ttfb_ms
        } else {
            None
        },
    );
    let n = front.len() as int + 1;
    lemma_cut(front, p, " / loss "@, watch::loss_text(r.path), ")"@);
    lemma_cut(front, q, " / loss "@, watch::loss_text(s.path), ")"@);
    n
}

/// What TCP measured shows only before the time to the first byte: two healthy runs
/// that differ in nothing else have the same line from there on.
pub proof fn law_tcp_shows_before_http(
    a: TimelineEntry,
    b: TimelineEntry,
    r: Report,
    s: Report,
    v: RenderedVerdict,
    w: RenderedVerdict,
    lang: Lang,
) -> (m: int)
    requires
        watch::entry_shows(a, r, v, lang),
        watch::entry_shows(b, s, w, lang),
        v.culprit is NoProblem,
        w.culprit is NoProblem,
        r.http == s.http,
        r.path == s.path,
    ensures
        "/ ttfb "@.len() <= m <= a->Healthy_0@.len(),
        m <= b->Healthy_0@.len(),
        a->Healthy_0@.skip(a->Healthy_0@.len() - m) == b->Healthy_0@.skip(b->Healthy_0@.len() - m),
        a->Healthy_0@.skip(a->Healthy_0@.len() - m).take("/ ttfb "@.len() as int) == "/ ttfb "@,
{
    let t = if r.http is Some {
        r.http->0.ttfb_ms
    } else {
        None
    };
    let tail = "/ ttfb "@ + measure::ms_text(t) + " / loss "@ + watch::loss_text(r.path) + ")"@;
    let m = tail.len() as int;
    let x = a->Healthy_0@;
    let y = b->Healthy_0@;
    let p = "OK (dns "@ + measure::ms_text(diagnose::first_latency(r.dns.sources@)) + " / tcp "@
        + measure::ms_text(diagnose::first_average(r.tcp.probes@));
    let q = "OK (dns "@ + measure::ms_text(diagnose::first_latency(s.dns.sources@)) + " / tcp "@
        + measure::ms_text(diagnose::first_average(s.tcp.probes@));
    reveal_strlit(" / ttfb ");
    reveal_strlit("/ ttfb ");
    assert(" / ttfb "@ =~= seq![' '] + "/ ttfb "@);
    assert(x =~= p.push(' ') + tail);
    assert(y =~= q.push(' ') + tail);
    assert(x.skip(x.len() - m) =~= tail);
    assert(y.skip(y.len() - m) =~= tail);
    assert(tail.take("/ ttfb "@.len() as int) =~= "/ ttfb "@);
    m
}

/// The line of a run with a problem ends with the headline, behind a blank.
pub proof fn law_problem_line(e: TimelineEntry, r: Report, v: RenderedVerdict, lang: Lang)
    requires
        watch::entry_shows(e, r, v, lang),
        !(v.culprit is NoProblem),
    ensures
        e is Problem,
        ({
            let s = e->Problem_0@;
            let n = v.headline@.len();
            &&& s.len() > n
            &&& s.skip(s.len() - n) == v.headline@
            &&& s[s.len() - n - 1] == ' '
        }),
{
    reveal_strlit(" ");
    let s = e->Problem_0@;
    assert(s.skip(s.len() - v.headline@.len()) =~= v.headline@);
}

// ── The books ───────────────────────────────────────────────────────────

/// A healthy run counts as a run and as a healthy one, and changes no problem.
pub proof fn law_healthy_run(t: Tally, headline: Seq<char>, at: Seq<char>)
    requires
        t.wf(),
        t.runs < u32::MAX,
    ensures
        ({
            let after = watch::after_run(t, Culprit::NoProblem, headline, at);
            &&& after.runs == t.runs + 1
            &&& after.ok_runs == t.ok_runs + 1
            &&& after.problems == t.problems
            &&& after.prev == Some(Culprit::NoProblem)
        }),
{
    watch::law_every_run_is_counted_once(t, Culprit::NoProblem, headline, at);
}

/// A problem that was seen before is counted once more and was last seen now; what was
/// noted at its first time stays, and so does every other problem.
pub proof fn law_known_problem(t: Tally, k: int, headline: Seq<char>, at: Seq<char>)
    requires
        t.wf(),
        t.runs < u32::MAX,
        0 <= k < t.problems.len(),
    ensures
        ({
            let after = watch::after_run(t, t.problems[k].culprit, headline, at);
            let p = after.problems[k];
            &&& after.runs == t.runs + 1
            &&& after.ok_runs == t.ok_runs
            &&& after.prev == Some(t.problems[k].culprit)
            &&& after.problems.len() == t.problems.len()
            &&& p.culprit == t.problems[k].culprit
            &&& p.headline == t.problems[k].headline
            &&& p.first == t.problems[k].first
            &&& p.last == at
            &&& p.count == t.problems[k].count + 1
            &&& forall|i: int|
                0 <= i < t.problems.len() && i != k ==> #[trigger] after.problems[i]
                    == t.problems[i]
        }),
{
    watch::lemma_place(t.problems, t.problems[k].culprit, k);
    watch::lemma_sightings_bound(t.problems, k);
}

/// A problem that was not seen before is added behind the others.
pub proof fn law_new_problem(t: Tally, culprit: Culprit, headline: Seq<char>, at: Seq<char>)
    requires
        t.wf(),
        t.runs < u32::MAX,
        !(culprit is NoProblem),
        forall|i: int| 0 <= i < t.problems.len() ==> (#[trigger] t.problems[i]).culprit != culprit,
    ensures
        ({
            let after = watch::after_run(t, culprit, headline, at);
            let p = after.problems.last();
            &&& after.runs == t.runs + 1
            &&& after.ok_runs == t.ok_runs
            &&& after.prev == Some(culprit)
            &&& after.problems.drop_last() == t.problems
            &&& p.culprit == culprit
            &&& p.headline == headline
            &&& p.count == 1
            &&& p.first == at
            &&& p.last == at
        }),
{
    watch::lemma_place(t.problems, culprit, t.problems.len() as int);
    let after = watch::after_run(t, culprit, headline, at);
    assert(after.problems.drop_last() =~= t.problems);
}

/// The whole verdict is shown exactly where the run differs from the one before; before
/// the first run, nothing was wrong.
pub proof fn law_only_changes_are_shown(
    t: Tally,
    culprit: Culprit,
    next: Culprit,
    headline: Seq<char>,
    at: Seq<char>,
)
    ensures
        watch::changes(watch::after_run(t, culprit, headline, at).prev, next) <==> next != culprit,
        watch::changes(None, next) <==> next != Culprit::NoProblem,
{
}

// ── The summary ─────────────────────────────────────────────────────────

/// The summary gives the runs, the healthy ones and their share, then, where there were
/// any problems, a heading and one line for each in the order of their first sighting.
pub proof fn law_summary(t: Tally, i: int)
    requires
        t.runs > 0,
        0 <= i < t.problems.len(),
    ensures
        ({
            let en = watch::summary_shown(t, Lang::En);
            let p = t.problems[i];
            &&& en.len() == t.problems.len() + 2
            &&& en[0] == "runs: "@ + text::dec(t.runs as nat) + " / ok: "@ + text::dec(
                t.ok_runs as nat,
            ) + " ("@ + text::dec((Percent { part: t.ok_runs, whole: t.runs }).shown()) + "%)"@
            &&& en[i + 2] == "  "@ + i18n::msg_text(Lang::En, MsgKey::Bullet) + (p.headline
                + " — "@ + text::dec(p.count as nat) + " times (first "@ + p.first + " / last "@
                + p.last + ")"@)
        }),
        ({
            let ja = watch::summary_shown(t, Lang::Ja);
            let p = t.problems[i];
            &&& ja.len() == t.problems.len() + 2
            &&& ja[0] == "実行回数: "@ + text::dec(t.runs as nat) + " / 正常: "@ + text::dec(
                t.ok_runs as nat,
            ) + " ("@ + text::dec((Percent { part: t.ok_runs, whole: t.runs }).shown()) + "%)"@
            &&& ja[i + 2] == "  "@ + i18n::msg_text(Lang::Ja, MsgKey::Bullet) + (p.headline
                + " — "@ + text::dec(p.count as nat) + " 回 (初回 "@ + p.first + " / 最終 "@
                + p.last + ")"@)
        }),
{
}

/// Where no problem was seen, the summary is the line on the runs alone.
pub proof fn law_healthy_summary(t: Tally, lang: Lang)
    requires
        t.wf(),
        t.ok_runs == t.runs,
        t.runs > 0,
    ensures
        t.problems.len() == 0,
        watch::summary_shown(t, lang).len() == 1,
        (Percent { part: t.ok_runs, whole: t.runs }).shown() == 100,
{
    if t.problems.len() > 0 {
        watch::lemma_sightings_bound(t.problems, 0);
        assert(t.problems[0].count > 0);
    }
    measure::laws::law_shares_are_shown_in_hundredths(
        Percent { part: t.ok_runs, whole: t.runs },
        100,
    );
}

} // verus!
