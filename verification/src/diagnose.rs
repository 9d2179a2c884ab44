//! The course of a diagnosis, up to the verdict. It says which stage comes next, what
//! it is run on, and what becomes of its result. Whoever drives the diagnosis
//! runs the stages, watches the clock and shows the lines.

pub mod choices;
pub mod course;
pub mod laws;

use crate::addr;
use crate::addr::IpAddr;
use crate::i18n;
use crate::i18n::{Lang, MsgKey};
use crate::measure::Millis;
use crate::report::{
    DnsReport, DnsSourceResult, EnvReport, HttpReport, PathReport, QuicReport, Report,
    StageDuration, StageName, TcpOutcome, TcpProbe, TcpReport, TlsReport, TraceReport,
    TruncationReason,
};
use crate::show;
use crate::show::{Line, LineView};
use crate::stages;
use crate::stages::StageTracker;
use crate::target::{Target, TargetView};
use crate::text;
use crate::verdict;
use crate::verdict::rules::JITTER_MS_THRESHOLD;
use crate::verdict::summary;
use crate::verdict::{Culprit, Verdict};
use vstd::prelude::*;

verus! {

// ── What the stages are run on ──────────────────────────────────────────

/// The addresses to connect to: the host itself where it is an address, else the
/// answer of the first DNS source that gave one.
pub open spec fn candidates(host: Seq<char>, sources: Seq<DnsSourceResult>) -> Seq<IpAddr> {
    match addr::ip_of(host) {
        Some(ip) => seq![ip],
        None => first_answer(sources),
    }
}

pub open spec fn first_answer(sources: Seq<DnsSourceResult>) -> Seq<IpAddr>
    decreases sources.len(),
{
    if sources.len() == 0 {
        Seq::empty()
    } else if sources.first().resolved() && sources.first().ips@.len() > 0 {
        sources.first().ips@
    } else {
        first_answer(sources.drop_first())
    }
}

/// The address of the first probe that connected.
pub open spec fn first_connected(probes: Seq<TcpProbe>) -> Option<IpAddr>
    decreases probes.len(),
{
    if probes.len() == 0 {
        None
    } else if probes.first().connected() {
        Some(probes.first().ip)
    } else {
        first_connected(probes.drop_first())
    }
}

/// The address for the stages after TCP: the first that connected, or else the
/// first candidate.
pub open spec fn primary_ip(probes: Seq<TcpProbe>, ips: Seq<IpAddr>) -> Option<IpAddr> {
    match first_connected(probes) {
        Some(ip) => Some(ip),
        None => if ips.len() > 0 {
            Some(ips[0])
        } else {
            None
        },
    }
}

/// The URL of the HTTP request. An IPv6 address stands in brackets, and the
/// default port of the scheme is left out.
pub open spec fn url_of(t: TargetView) -> Seq<char> {
    let scheme = if t.use_tls {
        "https://"@
    } else {
        "http://"@
    };
    let host = if addr::ip_of(t.host) matches Some(ip) && ip is V6 {
        "["@ + t.host + "]"@
    } else {
        t.host
    };
    let default_port: u16 = if t.use_tls {
        443
    } else {
        80
    };
    if t.port == default_port {
        scheme + host + t.path
    } else {
        scheme + host + ":"@ + text::dec(t.port as nat) + t.path
    }
}

/// The latency of the first DNS source that resolved the name.
pub open spec fn first_latency(sources: Seq<DnsSourceResult>) -> Option<Millis>
    decreases sources.len(),
{
    if sources.len() == 0 {
        None
    } else if sources.first().resolved() {
        sources.first().latency_ms
    } else {
        first_latency(sources.drop_first())
    }
}

/// The average connect time of the first probe that has one.
pub open spec fn first_average(probes: Seq<TcpProbe>) -> Option<Millis>
    decreases probes.len(),
{
    if probes.len() == 0 {
        None
    } else if probes.first().avg_ms is Some {
        probes.first().avg_ms
    } else {
        first_average(probes.drop_first())
    }
}

/// Some probe timed out.
pub open spec fn times_out(probes: Seq<TcpProbe>) -> bool {
    exists|i: int| 0 <= i < probes.len() && (#[trigger] probes[i]).outcome is Timeout
}

/// The path loses packets or is jittery.
pub open spec fn path_bad(path: Option<PathReport>) -> bool {
    match path {
        Some(p) => p.loss_pct.positive() || (p.jitter_ms is Some && p.jitter_ms->0.over(
            JITTER_MS_THRESHOLD as int,
        )),
        None => false,
    }
}

fn find_first_answer(sources: &[DnsSourceResult]) -> (ips: Vec<IpAddr>)
    ensures
        ips@ == first_answer(sources@),
{
    let mut i: usize = 0;
    assert(sources@.skip(0) == sources@);
    while i < sources.len()
        invariant
            i <= sources.len(),
            first_answer(sources@) == first_answer(sources@.skip(i as int)),
        decreases sources.len() - i,
    {
        assert(sources@.skip(i as int).drop_first() == sources@.skip(i + 1));
        if sources[i].is_ok() && sources[i].ips.len() > 0 {
            return addr::copy_ips(sources[i].ips.as_slice());
        }
        i = i + 1;
    }
    Vec::new()
}

/// The addresses to connect to.
pub fn resolved_ips(host: &str, dns: &DnsReport) -> (ips: Vec<IpAddr>)
    ensures
        ips@ == candidates(host@, dns.sources@),
{
    match addr::parse_ip(host) {
        Some(ip) => {
            let mut ips: Vec<IpAddr> = Vec::new();
            ips.push(ip);
            ips
        },
        None => find_first_answer(dns.sources.as_slice()),
    }
}

/// The address for the stages after TCP.
pub fn choose_primary(tcp: &TcpReport, ips: &[IpAddr]) -> (r: Option<IpAddr>)
    ensures
        r == primary_ip(tcp.probes@, ips@),
{
    let mut i: usize = 0;
    assert(tcp.probes@.skip(0) == tcp.probes@);
    while i < tcp.probes.len()
        invariant
            i <= tcp.probes@.len(),
            first_connected(tcp.probes@) == first_connected(tcp.probes@.skip(i as int)),
        decreases tcp.probes@.len() - i,
    {
        assert(tcp.probes@.skip(i as int).drop_first() == tcp.probes@.skip(i + 1));
        if tcp.probes[i].is_ok() {
            return Some(tcp.probes[i].ip);
        }
        i = i + 1;
    }
    if ips.len() > 0 {
        Some(ips[0])
    } else {
        None
    }
}

/// The URL of the HTTP request.
pub fn request_url(t: &Target) -> (s: String)
    ensures
        s@ == url_of(t@),
{
    let mut s = if t.use_tls {
        "https://".to_owned()
    } else {
        "http://".to_owned()
    };
    let bracketed = match addr::parse_ip(t.host.as_str()) {
        Some(ip) => !ip.is_v4(),
        None => false,
    };
    if bracketed {
        let mut host = "[".to_owned();
        host.append(t.host.as_str());
        host.append("]");
        s.append(host.as_str());
    } else {
        s.append(t.host.as_str());
    }
    let default_port: u16 = if t.use_tls {
        443
    } else {
        80
    };
    if t.port != default_port {
        s.append(":");
        text::push_dec(&mut s, t.port as u64);
    }
    s.append(t.path.as_str());
    s
}

/// The latency of the first DNS source that resolved the name.
pub fn dns_latency(dns: &DnsReport) -> (r: Option<Millis>)
    ensures
        r == first_latency(dns.sources@),
{
    let mut i: usize = 0;
    assert(dns.sources@.skip(0) == dns.sources@);
    while i < dns.sources.len()
        invariant
            i <= dns.sources@.len(),
            first_latency(dns.sources@) == first_latency(dns.sources@.skip(i as int)),
        decreases dns.sources@.len() - i,
    {
        assert(dns.sources@.skip(i as int).drop_first() == dns.sources@.skip(i + 1));
        if dns.sources[i].is_ok() {
            return dns.sources[i].latency_ms;
        }
        i = i + 1;
    }
    None
}

/// The average connect time of the first probe that has one.
pub fn connect_average(tcp: &TcpReport) -> (r: Option<Millis>)
    ensures
        r == first_average(tcp.probes@),
{
    let mut i: usize = 0;
    assert(tcp.probes@.skip(0) == tcp.probes@);
    while i < tcp.probes.len()
        invariant
            i <= tcp.probes@.len(),
            first_average(tcp.probes@) == first_average(tcp.probes@.skip(i as int)),
        decreases tcp.probes@.len() - i,
    {
        assert(tcp.probes@.skip(i as int).drop_first() == tcp.probes@.skip(i + 1));
        if tcp.probes[i].avg_ms.is_some() {
            return tcp.probes[i].avg_ms;
        }
        i = i + 1;
    }
    None
}

fn any_timeout(probes: &[TcpProbe]) -> (r: bool)
    ensures
        r == times_out(probes@),
{
    let mut i: usize = 0;
    while i < probes.len()
        invariant
            i <= probes.len(),
            forall|j: int| 0 <= j < i ==> !((#[trigger] probes@[j]).outcome is Timeout),
        decreases probes.len() - i,
    {
        if matches!(probes[i].outcome, TcpOutcome::Timeout) {
            return true;
        }
        i = i + 1;
    }
    false
}

fn is_path_bad(path: &Option<PathReport>) -> (r: bool)
    ensures
        r == path_bad(*path),
{
    match path {
        Some(p) => {
            let jittery = match p.jitter_ms {
                Some(j) => j.is_over(JITTER_MS_THRESHOLD),
                None => false,
            };
            p.loss_pct.is_positive() || jittery
        },
        None => false,
    }
}

// ── The course of a diagnosis ───────────────────────────────────────────

/// What a diagnosis is told at its start.
pub struct Setup {
    pub target: Target,
    /// The trace runs in any case.
    pub force_trace: bool,
    pub lang: Lang,
}

/// What the stages have found so far.
pub struct Facts {
    pub env: EnvReport,
    pub dns: DnsReport,
    pub tcp: TcpReport,
    pub tls: Option<TlsReport>,
    pub http: Option<HttpReport>,
    pub quic: Option<QuicReport>,
    pub path: Option<PathReport>,
    pub trace: Option<TraceReport>,
}

/// Where a diagnosis stands.
#[derive(Debug, Clone, Copy, PartialEq, Eq, Structural)]
pub enum Position {
    /// The stage comes next.
    Before(StageName),
    /// The stage is under way.
    During(StageName),
    Over,
}

/// What is to be done next.
pub enum Step {
    Env,
    Dns,
    /// Connect to some of these addresses.
    Tcp(Vec<IpAddr>),
    Tls(IpAddr),
    /// Fetch this URL.
    Http(String),
    Quic(IpAddr),
    Path(IpAddr),
    Trace(IpAddr),
    /// The stage does not apply.
    Nothing,
    Finished,
}

/// The contents of a [`Step`].
#[verifier::ext_equal]
pub enum StepView {
    Env,
    Dns,
    Tcp(Seq<IpAddr>),
    Tls(IpAddr),
    Http(Seq<char>),
    Quic(IpAddr),
    Path(IpAddr),
    Trace(IpAddr),
    Nothing,
    Finished,
}

impl View for Step {
    type V = StepView;

    open spec fn view(&self) -> StepView {
        match self {
            Step::Env => StepView::Env,
            Step::Dns => StepView::Dns,
            Step::Tcp(ips) => StepView::Tcp(ips@),
            Step::Tls(ip) => StepView::Tls(*ip),
            Step::Http(url) => StepView::Http(url@),
            Step::Quic(ip) => StepView::Quic(*ip),
            Step::Path(ip) => StepView::Path(*ip),
            Step::Trace(ip) => StepView::Trace(*ip),
            Step::Nothing => StepView::Nothing,
            Step::Finished => StepView::Finished,
        }
    }
}

/// The state of a diagnosis.
#[verifier::ext_equal]
pub struct State {
    pub setup: Setup,
    pub facts: Facts,
    pub position: Position,
    pub truncated: Option<TruncationReason>,
    pub ran: Seq<StageName>,
    pub durations: Seq<StageDuration>,
    /// The lines that were not shown yet.
    pub lines: Seq<LineView>,
}

impl State {
    pub open spec fn ips(self) -> Seq<IpAddr> {
        candidates(self.setup.target.host@, self.facts.dns.sources@)
    }

    pub open spec fn primary(self) -> Option<IpAddr> {
        primary_ip(self.facts.tcp.probes@, self.ips())
    }

    pub open spec fn connects(self) -> bool {
        summary::connects(self.facts.tcp.probes@)
    }

    pub open spec fn fixed(self, key: MsgKey) -> Seq<char> {
        i18n::msg_text(self.setup.lang, key)
    }
}

/// What a stage would do in that state, and the lines that announce it.
pub open spec fn plan(s: State, stage: StageName) -> (StepView, Seq<LineView>) {
    let t = s.setup.target;
    match stage {
        StageName::Env => (StepView::Env, seq![LineView::Section(MsgKey::StageEnv)]),
        StageName::Dns => (StepView::Dns, seq![LineView::Section(MsgKey::StageDns)]),
        StageName::Tcp => if s.ips().len() == 0 {
            (
                StepView::Nothing,
                seq![
                    LineView::Section(MsgKey::StageTcp),
                    LineView::Bad(s.fixed(MsgKey::NoResolvedIps)),
                ],
            )
        } else {
            (StepView::Tcp(s.ips()), seq![LineView::Section(MsgKey::StageTcp)])
        },
        StageName::Tls => if !t.use_tls {
            (StepView::Nothing, Seq::empty())
        } else if s.primary() is Some && s.connects() {
            (StepView::Tls(s.primary()->0), seq![LineView::Section(MsgKey::StageTls)])
        } else {
            (
                StepView::Nothing,
                seq![
                    LineView::Section(MsgKey::StageTls),
                    LineView::Bad(s.fixed(MsgKey::TlsSkippedNoTcp)),
                ],
            )
        },
        StageName::Http => if !t.do_http {
            (StepView::Nothing, Seq::empty())
        } else if s.connects() {
            (StepView::Http(url_of(t@)), seq![LineView::Section(MsgKey::StageHttp)])
        } else {
            (
                StepView::Nothing,
                seq![
                    LineView::Section(MsgKey::StageHttp),
                    LineView::Bad(s.fixed(MsgKey::HttpSkippedNoTcp)),
                ],
            )
        },
        StageName::Quic => if t.use_tls && t.do_http && s.primary() is Some && s.connects() {
            (StepView::Quic(s.primary()->0), seq![LineView::Section(MsgKey::StageQuic)])
        } else {
            (StepView::Nothing, Seq::empty())
        },
        StageName::Path => if s.primary() is Some && s.connects() {
            (StepView::Path(s.primary()->0), seq![LineView::Section(MsgKey::StagePath)])
        } else {
            (StepView::Nothing, Seq::empty())
        },
        StageName::Trace => if s.primary() is Some && (s.setup.force_trace || times_out(
            s.facts.tcp.probes@,
        ) || path_bad(s.facts.path)) {
            (StepView::Trace(s.primary()->0), seq![LineView::Section(MsgKey::StageTrace)])
        } else {
            (StepView::Nothing, Seq::empty())
        },
    }
}

/// The position after a stage.
pub open spec fn past(stage: StageName) -> Position {
    match stage {
        StageName::Env => Position::Before(StageName::Dns),
        StageName::Dns => Position::Before(StageName::Tcp),
        StageName::Tcp => Position::Before(StageName::Tls),
        StageName::Tls => Position::Before(StageName::Http),
        StageName::Http => Position::Before(StageName::Quic),
        StageName::Quic => Position::Before(StageName::Path),
        StageName::Path => Position::Before(StageName::Trace),
        StageName::Trace => Position::Over,
    }
}

/// What is done at a stage boundary. Once the deadline has passed, the diagnosis
/// ends before the next stage; only the first stage runs in any case.
pub open spec fn decision(s: State, expired: bool) -> StepView {
    match s.position {
        Position::Before(stage) => if expired && !(stage is Env) {
            StepView::Finished
        } else {
            plan(s, stage).0
        },
        Position::During(_) => StepView::Nothing,
        Position::Over => StepView::Finished,
    }
}

/// The state after a stage boundary.
pub open spec fn after_boundary(s: State, expired: bool) -> State {
    match s.position {
        Position::Before(stage) => if expired && !(stage is Env) {
            State {
                position: Position::Over,
                truncated: Some(TruncationReason::MaxTimeExceeded),
                ..s
            }
        } else {
            let (step, lines) = plan(s, stage);
            State {
                position: if step is Nothing {
                    past(stage)
                } else {
                    Position::During(stage)
                },
                ran: if step is Nothing && stage is Tcp {
                    s.ran.push(stage)
                } else {
                    s.ran
                },
                lines: s.lines + lines,
                ..s
            }
        },
        _ => s,
    }
}

/// The state after a stage that found these facts and shows these lines.
pub open spec fn after_stage(
    s: State,
    stage: StageName,
    ms: Millis,
    facts: Facts,
    lines: Seq<LineView>,
) -> State {
    if s.position == Position::During(stage) {
        State {
            facts,
            position: past(stage),
            ran: s.ran.push(stage),
            durations: s.durations.push(StageDuration { stage, ms }),
            lines: s.lines + lines,
            ..s
        }
    } else {
        s
    }
}

/// The HTTP result with the times that the earlier stages measured.
pub open spec fn with_timings(http: HttpReport, facts: Facts) -> HttpReport {
    HttpReport {
        dns_ms: first_latency(facts.dns.sources@),
        connect_ms: first_average(facts.tcp.probes@),
        tls_ms: match facts.tls {
            Some(tls) => tls.handshake_ms,
            None => None,
        },
        ..http
    }
}

/// A diagnosis.
pub struct Diagnosis {
    setup: Setup,
    facts: Facts,
    position: Position,
    truncated: Option<TruncationReason>,
    tracker: StageTracker,
    lines: Vec<Line>,
}

impl View for Diagnosis {
    type V = State;

    closed spec fn view(&self) -> State {
        State {
            setup: self.setup,
            facts: self.facts,
            position: self.position,
            truncated: self.truncated,
            ran: self.tracker.ran@,
            durations: self.tracker.durations@,
            lines: show::views(self.lines@),
        }
    }
}

/// Nothing has been found yet.
pub open spec fn blank(facts: Facts) -> bool {
    &&& facts.dns.sources@.len() == 0
    &&& !facts.dns.skipped
    &&& facts.tcp.probes@.len() == 0
    &&& facts.tls is None
    &&& facts.http is None
    &&& facts.quic is None
    &&& facts.path is None
    &&& facts.trace is None
}

fn no_facts(env: EnvReport) -> (facts: Facts)
    ensures
        blank(facts),
        facts.env == env,
{
    Facts {
        env,
        dns: DnsReport { sources: Vec::new(), skipped: false },
        tcp: TcpReport { probes: Vec::new() },
        tls: None,
        http: None,
        quic: None,
        path: None,
        trace: None,
    }
}

fn advance(stage: StageName) -> (p: Position)
    ensures
        p == past(stage),
{
    match stage {
        StageName::Env => Position::Before(StageName::Dns),
        StageName::Dns => Position::Before(StageName::Tcp),
        StageName::Tcp => Position::Before(StageName::Tls),
        StageName::Tls => Position::Before(StageName::Http),
        StageName::Http => Position::Before(StageName::Quic),
        StageName::Quic => Position::Before(StageName::Path),
        StageName::Path => Position::Before(StageName::Trace),
        StageName::Trace => Position::Over,
    }
}

impl Diagnosis {
    /// A diagnosis before its first stage.
    pub fn new(target: Target, force_trace: bool, lang: Lang) -> (d: Self)
        ensures
            d@.setup == (Setup { target, force_trace, lang }),
            blank(d@.facts),
            d@.position == Position::Before(StageName::Env),
            d@.truncated is None,
            d@.ran.len() == 0,
            d@.durations.len() == 0,
            d@.lines.len() == 0,
    {
        Diagnosis {
            setup: Setup { target, force_trace, lang },
            facts: no_facts(EnvReport::default()),
            position: Position::Before(StageName::Env),
            truncated: None,
            tracker: StageTracker::new(),
            lines: Vec::new(),
        }
    }

    fn add(&mut self, line: Line)
        ensures
            final(self)@ == (State { lines: old(self)@.lines.push(line@), ..old(self)@ }),
    {
        let ghost before = self@;
        self.lines.push(line);
        assert(self@.lines == before.lines.push(line@));
    }

    fn say(&mut self, key: MsgKey)
        ensures
            final(self)@ == (State {
                lines: old(self)@.lines.push(LineView::Bad(old(self)@.fixed(key))),
                ..old(self)@
            }),
    {
        let line = Line::Bad(i18n::msg(self.setup.lang, key).to_owned());
        self.add(line);
    }

    fn ips(&self) -> (ips: Vec<IpAddr>)
        ensures
            ips@ == self@.ips(),
    {
        resolved_ips(self.setup.target.host.as_str(), &self.facts.dns)
    }

    fn primary(&self) -> (r: Option<IpAddr>)
        ensures
            r == self@.primary(),
    {
        choose_primary(&self.facts.tcp, self.ips().as_slice())
    }

    fn connects(&self) -> (r: bool)
        ensures
            r == self@.connects(),
    {
        summary::any_connects(self.facts.tcp.probes.as_slice())
    }

    fn announce(&mut self, stage: StageName) -> (step: Step)
        ensures
            step@ == plan(old(self)@, stage).0,
            final(self)@ == (State {
                lines: old(self)@.lines + plan(old(self)@, stage).1,
                ..old(self)@
            }),
    {
        let ghost before = self@;
        match stage {
            StageName::Env => {
                self.add(Line::Section(MsgKey::StageEnv));
                Step::Env
            },
            StageName::Dns => {
                self.add(Line::Section(MsgKey::StageDns));
                Step::Dns
            },
            StageName::Tcp => {
                let ips = self.ips();
                self.add(Line::Section(MsgKey::StageTcp));
                if ips.len() == 0 {
                    self.say(MsgKey::NoResolvedIps);
                    assert(self@.lines =~= before.lines + plan(before, stage).1);
                    Step::Nothing
                } else {
                    Step::Tcp(ips)
                }
            },
            StageName::Tls => {
                if !self.setup.target.use_tls {
                    return Step::Nothing;
                }
                let ip = self.primary();
                let connects = self.connects();
                self.add(Line::Section(MsgKey::StageTls));
                if let Some(ip) = ip {
                    if connects {
                        return Step::Tls(ip);
                    }
                }
                self.say(MsgKey::TlsSkippedNoTcp);
                assert(self@.lines =~= before.lines + plan(before, stage).1);
                Step::Nothing
            },
            StageName::Http => {
                if !self.setup.target.do_http {
                    return Step::Nothing;
                }
                let connects = self.connects();
                self.add(Line::Section(MsgKey::StageHttp));
                if connects {
                    return Step::Http(request_url(&self.setup.target));
                }
                self.say(MsgKey::HttpSkippedNoTcp);
                assert(self@.lines =~= before.lines + plan(before, stage).1);
                Step::Nothing
            },
            StageName::Quic => {
                if let Some(ip) = self.primary() {
                    if self.setup.target.use_tls && self.setup.target.do_http && self.connects() {
                        self.add(Line::Section(MsgKey::StageQuic));
                        return Step::Quic(ip);
                    }
                }
                Step::Nothing
            },
            StageName::Path => {
                if let Some(ip) = self.primary() {
                    if self.connects() {
                        self.add(Line::Section(MsgKey::StagePath));
                        return Step::Path(ip);
                    }
                }
                Step::Nothing
            },
            StageName::Trace => {
                let wanted = self.setup.force_trace || any_timeout(
                    self.facts.tcp.probes.as_slice(),
                ) || is_path_bad(&self.facts.path);
                if let Some(ip) = self.primary() {
                    if wanted {
                        self.add(Line::Section(MsgKey::StageTrace));
                        return Step::Trace(ip);
                    }
                }
                Step::Nothing
            },
        }
    }

    /// Decides at a stage boundary what is to be done next, given whether the
    /// deadline has passed.
    pub fn next(&mut self, expired: bool) -> (step: Step)
        ensures
            step@ == decision(old(self)@, expired),
            final(self)@ == after_boundary(old(self)@, expired),
    {
        match self.position {
            Position::Before(stage) => {
                if expired && stage != StageName::Env {
                    self.position = Position::Over;
                    self.truncated = Some(TruncationReason::MaxTimeExceeded);
                    return Step::Finished;
                }
                let step = self.announce(stage);
                match step {
                    Step::Nothing => {
                        if stage == StageName::Tcp {
                            self.tracker.settle(stage);
                        }
                        self.position = advance(stage);
                    },
                    _ => {
                        self.position = Position::During(stage);
                    },
                }
                step
            },
            Position::During(_) => Step::Nothing,
            Position::Over => Step::Finished,
        }
    }

    fn is_during(&self, stage: StageName) -> (r: bool)
        ensures
            r == (self@.position == Position::During(stage)),
    {
        match self.position {
            Position::During(s) => s == stage,
            _ => false,
        }
    }

    fn close(&mut self, stage: StageName, ms: Millis, lines: Vec<Line>)
        requires
            old(self)@.position == Position::During(stage),
        ensures
            final(self)@ == after_stage(
                old(self)@,
                stage,
                ms,
                old(self)@.facts,
                show::views(lines@),
            ),
    {
        let ghost before = self@;
        let mut lines = lines;
        let ghost shown = show::views(lines@);
        self.lines.append(&mut lines);
        assert(self@.lines == before.lines + shown);
        self.tracker.record(stage, ms);
        self.position = advance(stage);
    }

    /// Takes the result of the environment stage.
    pub fn env_done(&mut self, env: EnvReport, ms: Millis)
        ensures
            final(self)@ == after_stage(
                old(self)@,
                StageName::Env,
                ms,
                (Facts { env, ..old(self)@.facts }),
                show::env_shown(old(self)@.setup.lang, old(self)@.setup.target.host@, env),
            ),
    {
        if self.is_during(StageName::Env) {
            let lines = show::env_lines(
                self.setup.lang,
                self.setup.target.host.as_str(),
                &env,
            );
            self.facts.env = env;
            self.close(StageName::Env, ms, lines);
        }
    }

    /// Takes the result of the DNS stage.
    pub fn dns_done(&mut self, dns: DnsReport, ms: Millis)
        ensures
            final(self)@ == after_stage(
                old(self)@,
                StageName::Dns,
                ms,
                (Facts { dns, ..old(self)@.facts }),
                show::dns_shown(old(self)@.setup.lang, dns),
            ),
    {
        if self.is_during(StageName::Dns) {
            let lines = show::dns_lines(self.setup.lang, &dns);
            self.facts.dns = dns;
            self.close(StageName::Dns, ms, lines);
        }
    }

    /// Takes the result of the TCP stage.
    pub fn tcp_done(&mut self, tcp: TcpReport, ms: Millis)
        ensures
            final(self)@ == after_stage(
                old(self)@,
                StageName::Tcp,
                ms,
                (Facts { tcp, ..old(self)@.facts }),
                show::tcp_shown(old(self)@.setup.lang, tcp),
            ),
    {
        if self.is_during(StageName::Tcp) {
            let lines = show::tcp_lines(self.setup.lang, &tcp);
            self.facts.tcp = tcp;
            self.close(StageName::Tcp, ms, lines);
        }
    }

    /// Takes the result of the TLS stage.
    pub fn tls_done(&mut self, tls: TlsReport, ms: Millis)
        ensures
            final(self)@ == after_stage(
                old(self)@,
                StageName::Tls,
                ms,
                (Facts { tls: Some(tls), ..old(self)@.facts }),
                show::tls_shown(old(self)@.setup.lang, tls),
            ),
    {
        if self.is_during(StageName::Tls) {
            let lines = show::tls_lines(self.setup.lang, &tls);
            self.facts.tls = Some(tls);
            self.close(StageName::Tls, ms, lines);
        }
    }

    /// Takes the result of the HTTP stage.
    pub fn http_done(&mut self, http: HttpReport, ms: Millis)
        ensures
            final(self)@ == after_stage(
                old(self)@,
                StageName::Http,
                ms,
                (Facts {
                    http: Some(with_timings(http, old(self)@.facts)),
                    ..old(self)@.facts
                }),
                show::http_shown(
                    old(self)@.setup.lang,
                    url_of(old(self)@.setup.target@),
                    with_timings(http, old(self)@.facts),
                ),
            ),
    {
        if self.is_during(StageName::Http) {
            let mut timed = http;
            timed.dns_ms = dns_latency(&self.facts.dns);
            timed.connect_ms = connect_average(&self.facts.tcp);
            timed.tls_ms = match &self.facts.tls {
                Some(tls) => tls.handshake_ms,
                None => None,
            };
            assert(timed == with_timings(http, self@.facts));
            let url = request_url(&self.setup.target);
            let lines = show::http_lines(self.setup.lang, url.as_str(), &timed);
            self.facts.http = Some(timed);
            self.close(StageName::Http, ms, lines);
        }
    }

    /// Takes the result of the QUIC stage.
    pub fn quic_done(&mut self, quic: QuicReport, ms: Millis)
        ensures
            final(self)@ == after_stage(
                old(self)@,
                StageName::Quic,
                ms,
                (Facts { quic: Some(quic), ..old(self)@.facts }),
                show::quic_shown(
                    old(self)@.setup.lang,
                    old(self)@.setup.target.port,
                    quic,
                    old(self)@.facts.http,
                ),
            ),
    {
        if self.is_during(StageName::Quic) {
            let lines = show::quic_lines(
                self.setup.lang,
                self.setup.target.port,
                &quic,
                &self.facts.http,
            );
            self.facts.quic = Some(quic);
            self.close(StageName::Quic, ms, lines);
        }
    }

    /// Takes the result of the path quality stage.
    pub fn path_done(&mut self, path: PathReport, ms: Millis)
        ensures
            final(self)@ == after_stage(
                old(self)@,
                StageName::Path,
                ms,
                (Facts { path: Some(path), ..old(self)@.facts }),
                seq![show::path_shown(old(self)@.setup.lang, path)],
            ),
    {
        if self.is_during(StageName::Path) {
            let lines = show::path_lines(self.setup.lang, &path);
            self.facts.path = Some(path);
            self.close(StageName::Path, ms, lines);
        }
    }

    /// Takes the result of the path trace.
    pub fn trace_done(&mut self, trace: TraceReport, ms: Millis)
        ensures
            final(self)@ == after_stage(
                old(self)@,
                StageName::Trace,
                ms,
                (Facts { trace: Some(trace), ..old(self)@.facts }),
                show::trace_shown(old(self)@.setup.lang, trace),
            ),
    {
        if self.is_during(StageName::Trace) {
            let lines = show::trace_lines(self.setup.lang, &trace);
            self.facts.trace = Some(trace);
            self.close(StageName::Trace, ms, lines);
        }
    }

    /// The lines that were not shown yet.
    pub fn take_lines(&mut self) -> (lines: Vec<Line>)
        ensures
            show::views(lines@) == old(self)@.lines,
            final(self)@ == (State { lines: Seq::empty(), ..old(self)@ }),
    {
        let mut lines: Vec<Line> = Vec::new();
        lines.append(&mut self.lines);
        assert(show::views(self.lines@) == Seq::<LineView>::empty());
        lines
    }

    /// The report and the verdict on it.
    pub fn finish(self) -> (r: (Report, Verdict))
        ensures
            concludes(self@, r.0),
            r.1@ == verdict::judgement(r.0),
    {
        let report = build_report(
            &self.setup.target,
            self.facts,
            self.tracker,
            self.truncated,
        );
        let v = verdict::judge(&report);
        (report, v)
    }
}

/// The report holds the facts of the diagnosis.
pub open spec fn holds_facts(r: Report, facts: Facts) -> bool {
    &&& r.env == facts.env
    &&& r.dns == facts.dns
    &&& r.tcp == facts.tcp
    &&& r.tls == facts.tls
    &&& r.http == facts.http
    &&& r.quic == facts.quic
    &&& r.path == facts.path
    &&& r.trace == facts.trace
}

/// The report names the target.
pub open spec fn names_target(r: Report, t: Target) -> bool {
    &&& r.target.host@ == t.host@
    &&& r.target.port == t.port
    &&& r.target.use_tls == t.use_tls
    &&& r.target.do_http == t.do_http
    &&& r.target.path@ == t.path@
    &&& r.target.is_ip_literal == t.literal()
}

/// The report tells which stages ran, and why no more of them did.
pub open spec fn tells_course(
    r: Report,
    ran: Seq<StageName>,
    durations: Seq<StageDuration>,
    truncated: Option<TruncationReason>,
) -> bool {
    &&& r.completeness.complete == (truncated is None)
    &&& r.completeness.truncated_reason == truncated
    &&& r.completeness.ran_stages@ == ran
    &&& r.completeness.skipped_stages@ == if truncated is Some {
        stages::left_out(stages::all_stages(), ran)
    } else {
        Seq::empty()
    }
    &&& r.stage_durations@ == durations
}

/// The report is that of the diagnosis.
pub open spec fn concludes(s: State, r: Report) -> bool {
    &&& names_target(r, s.setup.target)
    &&& holds_facts(r, s.facts)
    &&& tells_course(r, s.ran, s.durations, s.truncated)
}

fn copy_durations(list: &[StageDuration]) -> (v: Vec<StageDuration>)
    ensures
        v@ == list@,
{
    let mut v: Vec<StageDuration> = Vec::new();
    let mut i: usize = 0;
    while i < list.len()
        invariant
            i <= list.len(),
            v@ == list@.take(i as int),
        decreases list.len() - i,
    {
        v.push(list[i]);
        i = i + 1;
    }
    v
}

/// Builds the report.
pub fn build_report(
    target: &Target,
    facts: Facts,
    tracker: StageTracker,
    truncated: Option<TruncationReason>,
) -> (r: Report)
    ensures
        names_target(r, *target),
        holds_facts(r, facts),
        tells_course(r, tracker.ran@, tracker.durations@, truncated),
{
    let stage_durations = copy_durations(tracker.durations.as_slice());
    Report {
        target: target.info(),
        env: facts.env,
        dns: facts.dns,
        tcp: facts.tcp,
        tls: facts.tls,
        http: facts.http,
        quic: facts.quic,
        path: facts.path,
        trace: facts.trace,
        completeness: tracker.into_completeness(truncated),
        stage_durations,
    }
}

/// The report and the verdict of a diagnosis that the user interrupted: it holds
/// the environment alone.
pub fn interrupted(target: &Target, env: EnvReport) -> (r: (Report, Verdict))
    ensures
        names_target(r.0, *target),
        r.0.env == env,
        r.0.dns.sources@.len() == 0,
        !r.0.dns.skipped,
        r.0.tcp.probes@.len() == 0,
        r.0.tls is None,
        r.0.http is None,
        r.0.quic is None,
        r.0.path is None,
        r.0.trace is None,
        tells_course(
            r.0,
            Seq::empty(),
            Seq::empty(),
            Some(TruncationReason::Interrupted),
        ),
        r.1@ == verdict::judgement(r.0),
{
    let tracker = StageTracker::new();
    assert(tracker.ran@ == Seq::<StageName>::empty());
    assert(tracker.durations@ == Seq::<StageDuration>::empty());
    let report = build_report(
        target,
        no_facts(env),
        tracker,
        Some(TruncationReason::Interrupted),
    );
    let v = verdict::judge(&report);
    (report, v)
}

// ── The exit code ───────────────────────────────────────────────────────

/// The exit code of the program: 0 for a target without problems, 1 for a culprit
/// (found before the diagnosis was cut short, perhaps), 3 for a diagnosis that was
/// cut short before it found one.
pub open spec fn code_of(complete: bool, culprit: Culprit) -> i32 {
    if !(culprit is NoProblem) {
        1
    } else if complete {
        0
    } else {
        3
    }
}

/// The exit code of the program.
pub fn exit_code(report: &Report, verdict: &Verdict) -> (code: i32)
    ensures
        code == code_of(report.completeness.complete, verdict.culprit),
{
    let healthy = matches!(verdict.culprit, Culprit::NoProblem);
    if !report.completeness.complete && healthy {
        3
    } else if healthy {
        0
    } else {
        1
    }
}

} // verus!
