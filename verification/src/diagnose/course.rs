//! The course of a diagnosis: what each step leaves behind.

use crate::addr;
use crate::addr::IpAddr;
use crate::diagnose;
use crate::diagnose::{Facts, Position, State};
use crate::i18n::MsgKey;
use crate::measure::Millis;
use crate::report::{Report, StageName};
use crate::show::LineView;
use crate::verdict::Culprit;
use vstd::prelude::*;

verus! {

/// The stages in the order in which they run.
pub open spec fn nth_stage(i: int) -> StageName {
    if i == 0 {
        StageName::Env
    } else if i == 1 {
        StageName::Dns
    } else if i == 2 {
        StageName::Tcp
    } else if i == 3 {
        StageName::Tls
    } else if i == 4 {
        StageName::Http
    } else if i == 5 {
        StageName::Quic
    } else if i == 6 {
        StageName::Path
    } else {
        StageName::Trace
    }
}

/// The result of a stage is kept, the stage counts as one that ran and with the time that
/// it took, its lines follow those before, and the next stage comes; the last one ends the
/// diagnosis.
pub proof fn law_result_of_a_stage(
    s: State,
    i: int,
    ms: Millis,
    facts: Facts,
    lines: Seq<LineView>,
)
    requires
        0 <= i < 8,
        s.position == Position::During(nth_stage(i)),
    ensures
        ({
            let t = diagnose::after_stage(s, nth_stage(i), ms, facts, lines);
            &&& t.facts == facts
            &&& t.ran == s.ran.push(nth_stage(i))
            &&& t.durations.len() == s.durations.len() + 1
            &&& t.durations.drop_last() == s.durations
            &&& t.durations.last().stage == nth_stage(i)
            &&& t.durations.last().ms == ms
            &&& t.lines == s.lines + lines
            &&& i < 7 ==> t.position == Position::Before(nth_stage(i + 1))
            &&& i == 7 ==> t.position == Position::Over
            &&& t.truncated == s.truncated
            &&& t.setup == s.setup
        }),
{
    let t = diagnose::after_stage(s, nth_stage(i), ms, facts, lines);
    assert(t.durations.drop_last() =~= s.durations);
}

/// A result that nobody waits for changes nothing.
pub proof fn law_unexpected_result(
    s: State,
    stage: StageName,
    ms: Millis,
    facts: Facts,
    lines: Seq<LineView>,
)
    requires
        s.position != Position::During(stage),
    ensures
        diagnose::after_stage(s, stage, ms, facts, lines) == s,
{
}

/// A boundary finds nothing: it keeps the facts and the times. A stage that is started is
/// waited for; one that does not apply is passed over, and only TCP counts then as one
/// that ran.
pub proof fn law_boundary(s: State, i: int)
    requires
        0 <= i < 8,
        s.position == Position::Before(nth_stage(i)),
    ensures
        ({
            let d = diagnose::decision(s, false);
            let t = diagnose::after_boundary(s, false);
            &&& t.facts == s.facts
            &&& t.durations == s.durations
            &&& t.setup == s.setup
            &&& t.truncated == s.truncated
            &&& !(d is Finished)
            &&& !(d is Nothing) ==> t.position == Position::During(nth_stage(i)) && t.ran == s.ran
            &&& d is Nothing && i < 7 ==> t.position == Position::Before(nth_stage(i + 1))
            &&& d is Nothing && i == 7 ==> t.position == Position::Over
            &&& d is Nothing && i == 2 ==> t.ran == s.ran.push(StageName::Tcp)
            &&& d is Nothing && i != 2 ==> t.ran == s.ran
        }),
{
}

/// Every stage that is started is announced by its heading, and nothing else.
pub proof fn law_announcement(s: State, i: int)
    requires
        0 <= i < 8,
        s.position == Position::Before(nth_stage(i)),
        !(diagnose::decision(s, false) is Nothing),
    ensures
        diagnose::after_boundary(s, false).lines == s.lines.push(
            LineView::Section(
                match nth_stage(i) {
                    StageName::Env => MsgKey::StageEnv,
                    StageName::Dns => MsgKey::StageDns,
                    StageName::Tcp => MsgKey::StageTcp,
                    StageName::Tls => MsgKey::StageTls,
                    StageName::Http => MsgKey::StageHttp,
                    StageName::Quic => MsgKey::StageQuic,
                    StageName::Path => MsgKey::StagePath,
                    StageName::Trace => MsgKey::StageTrace,
                },
            ),
        ),
{
    let t = diagnose::after_boundary(s, false);
    assert(t.lines =~= s.lines.push(t.lines.last()));
}

/// A stage that the target asks for but that cannot run says so, in bad; one that the
/// target does not ask for says nothing.
pub proof fn law_passed_over(s: State, i: int)
    requires
        0 <= i < 8,
        s.position == Position::Before(nth_stage(i)),
        diagnose::decision(s, false) is Nothing,
    ensures
        ({
            let t = diagnose::after_boundary(s, false);
            let asked = i == 2 || (i == 3 && s.setup.target.use_tls) || (i == 4
                && s.setup.target.do_http);
            &&& !asked ==> t.lines == s.lines
            &&& asked ==> t.lines.len() == s.lines.len() + 2 && t.lines.last() is Bad
            &&& asked && i == 2 ==> t.lines.last()->Bad_0 == s.fixed(MsgKey::NoResolvedIps)
            &&& asked && i == 3 ==> t.lines.last()->Bad_0 == s.fixed(MsgKey::TlsSkippedNoTcp)
            &&& asked && i == 4 ==> t.lines.last()->Bad_0 == s.fixed(MsgKey::HttpSkippedNoTcp)
        }),
{
    let t = diagnose::after_boundary(s, false);
    assert(s.lines + Seq::<LineView>::empty() =~= s.lines);
}

/// The report holds what each stage found, under its own name, and names the target.
pub proof fn law_report(s: State, r: Report)
    requires
        diagnose::concludes(s, r),
    ensures
        r.env == s.facts.env,
        r.dns == s.facts.dns,
        r.tcp == s.facts.tcp,
        r.tls == s.facts.tls,
        r.http == s.facts.http,
        r.quic == s.facts.quic,
        r.path == s.facts.path,
        r.trace == s.facts.trace,
        r.target.host@ == s.setup.target.host@,
        r.target.port == s.setup.target.port,
        r.target.path@ == s.setup.target.path@,
        r.target.use_tls == s.setup.target.use_tls,
        r.target.do_http == s.setup.target.do_http,
        r.completeness.ran_stages@ == s.ran,
        r.completeness.truncated_reason == s.truncated,
        r.stage_durations@ == s.durations,
{
}

/// A target is told as an address exactly where its host is one in text.
pub proof fn law_report_on_an_address(s: State, r: Report, ip: IpAddr)
    requires
        diagnose::concludes(s, r),
    ensures
        s.setup.target.host@ == ip.shown() ==> r.target.is_ip_literal,
        r.target.is_ip_literal <==> addr::ip_of(s.setup.target.host@) is Some,
{
    addr::laws::law_addresses_read_back(ip);
}

/// A culprit outweighs that the diagnosis was cut short; without one, a complete diagnosis
/// ends in 0 and one that was cut short in 3.
pub proof fn law_exit_codes(complete: bool, culprit: Culprit)
    ensures
        culprit != Culprit::NoProblem ==> diagnose::code_of(complete, culprit) == 1,
        diagnose::code_of(true, Culprit::NoProblem) == 0,
        diagnose::code_of(false, Culprit::NoProblem) == 3,
{
}

} // verus!
