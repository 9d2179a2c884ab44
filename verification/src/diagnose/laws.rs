//! What holds of every diagnosis.

use crate::addr::laws;
use crate::diagnose;
use crate::diagnose::{Facts, Position, State};
use crate::measure::Millis;
use crate::report::{Report, StageName, TcpProbe, TruncationReason};
use crate::show::LineView;
use crate::stages;
use crate::target;
use crate::target::{ParseErrorView, TargetView};
use crate::text;
use crate::verdict;
use crate::verdict::summary;
use vstd::prelude::*;

verus! {

/// The place of a stage in the order of the stages.
pub open spec fn rank(stage: StageName) -> int {
    match stage {
        StageName::Env => 0,
        StageName::Dns => 1,
        StageName::Tcp => 2,
        StageName::Tls => 3,
        StageName::Http => 4,
        StageName::Quic => 5,
        StageName::Path => 6,
        StageName::Trace => 7,
    }
}

/// The rank of the stage that comes next or is under way.
pub open spec fn reached(p: Position) -> int {
    match p {
        Position::Before(stage) => rank(stage),
        Position::During(stage) => rank(stage),
        Position::Over => 8,
    }
}

/// The stages ran in their order, none twice and none ahead of its turn. Every one
/// was timed, but for a TCP stage that had nothing to connect to. A diagnosis that
/// was cut short is over.
pub open spec fn orderly(s: State) -> bool {
    &&& forall|i: int, j: int|
        0 <= i < j < s.ran.len() ==> rank(#[trigger] s.ran[i]) < rank(#[trigger] s.ran[j])
    &&& forall|i: int| 0 <= i < s.ran.len() ==> rank(#[trigger] s.ran[i]) < reached(s.position)
    &&& forall|i: int|
        0 <= i < s.durations.len() ==> s.ran.contains((#[trigger] s.durations[i]).stage)
    &&& forall|stage: StageName|
        #[trigger] s.ran.contains(stage) && !(stage is Tcp) ==> timed(s, stage)
    &&& s.truncated is Some ==> s.position is Over
}

pub open spec fn timed(s: State, stage: StageName) -> bool {
    exists|i: int| 0 <= i < s.durations.len() && (#[trigger] s.durations[i]).stage == stage
}

proof fn lemma_push_contains(ran: Seq<StageName>, new: StageName, stage: StageName)
    ensures
        ran.push(new).contains(stage) <==> ran.contains(stage) || stage == new,
{
    let after = ran.push(new);
    if ran.contains(stage) {
        let k = choose|k: int| 0 <= k < ran.len() && ran[k] == stage;
        assert(after[k] == stage);
    }
    if stage == new {
        assert(after[ran.len() as int] == stage);
    }
    if after.contains(stage) && stage != new {
        let k = choose|k: int| 0 <= k < after.len() && after[k] == stage;
        assert(ran[k] == stage);
    }
}

/// At a stage boundary the order is kept.
pub proof fn law_boundary_keeps_the_order(s: State, expired: bool)
    requires
        orderly(s),
    ensures
        orderly(diagnose::after_boundary(s, expired)),
{
    let t = diagnose::after_boundary(s, expired);
    if t.ran != s.ran {
        assert forall|stage: StageName| #[trigger] t.ran.contains(stage) && !(stage is Tcp) implies timed(
            t,
            stage,
        ) by {
            lemma_push_contains(s.ran, StageName::Tcp, stage);
            assert(timed(s, stage));
            let i = choose|i: int|
                0 <= i < s.durations.len() && (#[trigger] s.durations[i]).stage == stage;
            assert(t.durations[i].stage == stage);
        }
        assert forall|i: int| 0 <= i < t.durations.len() implies t.ran.contains(
            (#[trigger] t.durations[i]).stage,
        ) by {
            lemma_push_contains(s.ran, StageName::Tcp, s.durations[i].stage);
        }
    } else {
        assert forall|stage: StageName| #[trigger] t.ran.contains(stage) && !(stage is Tcp) implies timed(
            t,
            stage,
        ) by {
            assert(s.ran.contains(stage));
            assert(timed(s, stage));
            let i = choose|i: int|
                0 <= i < s.durations.len() && (#[trigger] s.durations[i]).stage == stage;
            assert(t.durations[i].stage == stage);
        }
        assert forall|i: int| 0 <= i < t.durations.len() implies t.ran.contains(
            (#[trigger] t.durations[i]).stage,
        ) by {
            assert(s.ran.contains(s.durations[i].stage));
        }
    }
}

/// The result of a stage keeps the order, whatever the stage found.
pub proof fn law_stage_keeps_the_order(
    s: State,
    stage: StageName,
    ms: Millis,
    facts: Facts,
    lines: Seq<LineView>,
)
    requires
        orderly(s),
    ensures
        orderly(diagnose::after_stage(s, stage, ms, facts, lines)),
{
    let t = diagnose::after_stage(s, stage, ms, facts, lines);
    if s.position == Position::During(stage) {
        assert forall|x: StageName| #[trigger] t.ran.contains(x) && !(x is Tcp) implies timed(
            t,
            x,
        ) by {
            lemma_push_contains(s.ran, stage, x);
            if x == stage {
                assert(t.durations[s.durations.len() as int].stage == x);
            } else {
                assert(timed(s, x));
                let i = choose|i: int|
                    0 <= i < s.durations.len() && (#[trigger] s.durations[i]).stage == x;
                assert(t.durations[i].stage == x);
            }
        }
        assert forall|i: int| 0 <= i < t.durations.len() implies t.ran.contains(
            (#[trigger] t.durations[i]).stage,
        ) by {
            lemma_push_contains(s.ran, stage, t.durations[i].stage);
            if i < s.durations.len() {
                assert(s.ran.contains(s.durations[i].stage));
            }
        }
    }
}

/// How far a diagnosis is from its end.
pub open spec fn steps_left(p: Position) -> int {
    match p {
        Position::Before(stage) => 2 * (8 - rank(stage)),
        Position::During(stage) => 2 * (8 - rank(stage)) - 1,
        Position::Over => 0,
    }
}

/// A diagnosis ends: every boundary and every result brings the end nearer.
pub proof fn law_diagnosis_ends(
    s: State,
    expired: bool,
    stage: StageName,
    ms: Millis,
    facts: Facts,
    lines: Seq<LineView>,
)
    ensures
        0 <= steps_left(s.position) <= 16,
        s.position is Before ==> steps_left(diagnose::after_boundary(s, expired).position)
            < steps_left(s.position),
        s.position == Position::During(stage) ==> steps_left(
            diagnose::after_stage(s, stage, ms, facts, lines).position,
        ) < steps_left(s.position),
{
}

/// The first stage runs even where the deadline has passed before it.
pub proof fn law_first_stage_always_runs(s: State, expired: bool)
    requires
        s.position == Position::Before(StageName::Env),
    ensures
        diagnose::decision(s, expired) is Env,
{
}

/// Once the deadline has passed, no later stage is started, and what was found so
/// far is kept.
pub proof fn law_deadline_keeps_what_was_found(s: State, stage: StageName)
    requires
        s.position == Position::Before(stage),
        !(stage is Env),
    ensures
        diagnose::decision(s, true) is Finished,
        diagnose::after_boundary(s, true).position is Over,
        diagnose::after_boundary(s, true).truncated == Some(TruncationReason::MaxTimeExceeded),
        diagnose::after_boundary(s, true).facts == s.facts,
        diagnose::after_boundary(s, true).ran == s.ran,
{
}

/// The report of a diagnosis that ran to its end is complete and skips nothing;
/// that of one that was cut short is not complete, and each stage is told either
/// among those that ran or among those that were skipped.
pub proof fn law_report_accounts_for_every_stage(s: State, r: Report, stage: StageName)
    requires
        diagnose::concludes(s, r),
    ensures
        r.completeness.complete <==> s.truncated is None,
        r.completeness.complete ==> r.completeness.skipped_stages@.len() == 0,
        !r.completeness.complete ==> r.completeness.ran_stages@.contains(stage)
            != r.completeness.skipped_stages@.contains(stage),
{
    stages::law_every_stage_ran_or_was_skipped(s.ran, stage);
}

proof fn lemma_first_connected(probes: Seq<TcpProbe>)
    requires
        summary::connects(probes),
    ensures
        diagnose::first_connected(probes) is Some,
    decreases probes.len(),
{
    let i = choose|i: int| 0 <= i < probes.len() && (#[trigger] probes[i]).connected();
    if !probes.first().connected() {
        assert(probes.drop_first()[i - 1] == probes[i]);
        lemma_first_connected(probes.drop_first());
    }
}

/// QUIC is tried for HTTPS targets that TCP reaches, and for no others.
pub proof fn law_quic_is_for_https_targets(s: State)
    ensures
        diagnose::plan(s, StageName::Quic).0 is Quic <==> s.setup.target.use_tls
            && s.setup.target.do_http && s.connects(),
{
    if s.connects() {
        lemma_first_connected(s.facts.tcp.probes@);
    }
}

proof fn lemma_authority(https: bool, h: Seq<char>, path: Seq<char>)
    requires
        target::plain_host(h),
        path.len() > 0,
        path[0] == '/',
    ensures
        target::authority(Some(https), h + path) == Ok::<TargetView, ParseErrorView>(
            TargetView {
                host: h,
                port: if https {
                    443
                } else {
                    80
                },
                use_tls: https,
                do_http: true,
                path,
            },
        ),
{
    let rest = h + path;
    assert forall|i: int| 0 <= i < h.len() implies #[trigger] rest[i] != '/' by {
        assert(rest[i] == h[i]);
    }
    assert(rest[h.len() as int] == path[0]);
    text::lemma_first_at_unique(rest, '/', h.len() as int);
    assert(rest.take(h.len() as int) == h);
    assert(rest.skip(h.len() as int) == path);
    text::lemma_first_at_unique(h, ':', h.len() as int);
}

/// The URL that is requested is the one that was given, for a host without a port.
pub proof fn law_given_url_is_requested(https: bool, h: Seq<char>, path: Seq<char>)
    requires
        target::plain_host(h),
        path.len() > 0,
        path[0] == '/',
    ensures
        ({
            let url = (if https {
                "https://"@
            } else {
                "http://"@
            }) + h + path;
            target::target_of(url) matches Ok(t) && diagnose::url_of(t) == url
        }),
{
    reveal_strlit("https://");
    reveal_strlit("http://");
    let scheme = if https {
        "https://"@
    } else {
        "http://"@
    };
    let url = scheme + h + path;
    assert(url.take(scheme.len() as int) == scheme);
    assert(url.skip(scheme.len() as int) == h + path);
    if !https && text::begins_with(url, "https://"@) {
        assert("https://"@[4] == 's');
        assert(url[4] == url.take(8)[4]);
        assert("http://"@[4] == ':');
    }
    lemma_authority(https, h, path);
    laws::lemma_v6_has_a_colon(h);
}

/// Unless it is forced, the trace runs only where a TCP probe timed out, packets
/// were lost or the jitter was high.
pub proof fn law_trace_runs_on_path_problems(s: State)
    requires
        s.primary() is Some,
    ensures
        diagnose::plan(s, StageName::Trace).0 is Trace <==> s.setup.force_trace
            || diagnose::times_out(s.facts.tcp.probes@) || diagnose::path_bad(s.facts.path),
{
}

/// The exit code is 0 exactly for a complete diagnosis without a culprit, and 1
/// exactly where there is a culprit, be the diagnosis complete or not.
pub proof fn law_exit_code(r: Report)
    ensures
        ({
            let culprit = verdict::judgement(r).culprit;
            let code = diagnose::code_of(r.completeness.complete, culprit);
            &&& code == 0 <==> r.completeness.complete && culprit is NoProblem
            &&& code == 1 <==> !(culprit is NoProblem)
            &&& code == 3 <==> !r.completeness.complete && culprit is NoProblem
        }),
{
}

} // verus!
