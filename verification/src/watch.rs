//! Watch mode: the timeline of repeated diagnoses and its summary.

pub mod laws;

use crate::diagnose;
use crate::i18n;
use crate::i18n::{Lang, MsgKey};
use crate::measure;
use crate::measure::Percent;
use crate::report::{PathReport, Report};
use crate::text;
use crate::verdict::{Culprit, RenderedVerdict};
use vstd::prelude::*;

verus! {

/// One kind of problem that was seen.
#[derive(Debug)]
pub struct ProblemStat {
    pub culprit: Culprit,
    /// The statement of the first time.
    pub headline: String,
    pub count: u32,
    pub first: String,
    pub last: String,
}

/// The contents of a [`ProblemStat`].
#[verifier::ext_equal]
pub struct ProblemView {
    pub culprit: Culprit,
    pub headline: Seq<char>,
    pub count: u32,
    pub first: Seq<char>,
    pub last: Seq<char>,
}

impl View for ProblemStat {
    type V = ProblemView;

    open spec fn view(&self) -> ProblemView {
        ProblemView {
            culprit: self.culprit,
            headline: self.headline@,
            count: self.count,
            first: self.first@,
            last: self.last@,
        }
    }
}

pub open spec fn problem_views(list: Seq<ProblemStat>) -> Seq<ProblemView> {
    Seq::new(list.len(), |i: int| list[i]@)
}

/// What a watch has seen so far.
#[verifier::ext_equal]
pub struct Tally {
    pub runs: u32,
    pub ok_runs: u32,
    pub prev: Option<Culprit>,
    pub problems: Seq<ProblemView>,
}

/// How often any of the problems was seen.
pub open spec fn sightings(problems: Seq<ProblemView>) -> int
    decreases problems.len(),
{
    if problems.len() == 0 {
        0
    } else {
        sightings(problems.drop_last()) + problems.last().count
    }
}

impl Tally {
    /// Every run was either healthy or counted with exactly one kind of problem.
    pub open spec fn wf(self) -> bool {
        &&& self.ok_runs + sightings(self.problems) == self.runs
        &&& forall|i: int|
            0 <= i < self.problems.len() ==> (#[trigger] self.problems[i]).count > 0
                && !(self.problems[i].culprit is NoProblem)
        &&& forall|i: int, j: int|
            0 <= i < j < self.problems.len() ==> (#[trigger] self.problems[i]).culprit != (
            #[trigger] self.problems[j]).culprit
    }
}

/// Where the problem stands in the list, or the length of the list.
pub open spec fn place(problems: Seq<ProblemView>, culprit: Culprit) -> int
    decreases problems.len(),
{
    if problems.len() == 0 || problems.first().culprit == culprit {
        0
    } else {
        1 + place(problems.drop_first(), culprit)
    }
}

/// The problems after one more sighting: the kind is counted once more, or added.
pub open spec fn seen_again(
    problems: Seq<ProblemView>,
    culprit: Culprit,
    headline: Seq<char>,
    at: Seq<char>,
) -> Seq<ProblemView> {
    let k = place(problems, culprit);
    if k < problems.len() {
        problems.update(
            k,
            ProblemView { count: (problems[k].count + 1) as u32, last: at, ..problems[k] },
        )
    } else {
        problems.push(ProblemView { culprit, headline, count: 1, first: at, last: at })
    }
}

/// The tally after one more run.
pub open spec fn after_run(
    t: Tally,
    culprit: Culprit,
    headline: Seq<char>,
    at: Seq<char>,
) -> Tally {
    Tally {
        runs: (t.runs + 1) as u32,
        ok_runs: if culprit is NoProblem {
            (t.ok_runs + 1) as u32
        } else {
            t.ok_runs
        },
        prev: Some(culprit),
        problems: if culprit is NoProblem {
            t.problems
        } else {
            seen_again(t.problems, culprit, headline, at)
        },
    }
}

/// The whole verdict is shown when the culprit changes, and at the first run when
/// there is one.
pub open spec fn changes(prev: Option<Culprit>, culprit: Culprit) -> bool {
    match prev {
        Some(p) => p != culprit,
        None => !(culprit is NoProblem),
    }
}

/// The loss of a path, or a dash where it was not measured.
pub open spec fn loss_text(path: Option<PathReport>) -> Seq<char> {
    match path {
        Some(p) => text::dec(p.loss_pct.shown()) + "%"@,
        None => "-"@,
    }
}

/// The timings of a healthy run.
pub open spec fn ok_details(r: Report) -> Seq<char> {
    i18n::watch_ok_details_text(
        measure::ms_text(diagnose::first_latency(r.dns.sources@)),
        measure::ms_text(diagnose::first_average(r.tcp.probes@)),
        measure::ms_text(
            match r.http {
                Some(http) => http.ttfb_ms,
                None => None,
            },
        ),
        loss_text(r.path),
    )
}

/// The line of the timeline for one run.
pub enum TimelineEntry {
    Healthy(String),
    Problem(String),
}

/// The entry is that of the run.
pub open spec fn entry_shows(e: TimelineEntry, r: Report, v: RenderedVerdict, lang: Lang) -> bool {
    match e {
        TimelineEntry::Healthy(s) => v.culprit is NoProblem && s@ == ok_details(r),
        TimelineEntry::Problem(s) => !(v.culprit is NoProblem) && s@ == i18n::msg_text(
            lang,
            MsgKey::VerdictLabel,
        ) + " "@ + v.headline@,
    }
}

/// The place is that of the first of the kind.
pub proof fn lemma_place(problems: Seq<ProblemView>, culprit: Culprit, k: int)
    requires
        0 <= k <= problems.len(),
        forall|i: int| 0 <= i < k ==> (#[trigger] problems[i]).culprit != culprit,
        k < problems.len() ==> problems[k].culprit == culprit,
    ensures
        place(problems, culprit) == k,
    decreases problems.len(),
{
    if k > 0 {
        assert(problems[0].culprit != culprit);
        assert forall|i: int| 0 <= i < k - 1 implies (
        #[trigger] problems.drop_first()[i]).culprit != culprit by {
            assert(problems[i + 1].culprit != culprit);
        }
        lemma_place(problems.drop_first(), culprit, k - 1);
    }
}

proof fn lemma_place_found(problems: Seq<ProblemView>, culprit: Culprit)
    ensures
        0 <= place(problems, culprit) <= problems.len(),
        place(problems, culprit) < problems.len() ==> problems[place(problems, culprit)].culprit
            == culprit,
        forall|i: int|
            0 <= i < place(problems, culprit) ==> (#[trigger] problems[i]).culprit != culprit,
    decreases problems.len(),
{
    if problems.len() > 0 && problems.first().culprit != culprit {
        let rest = problems.drop_first();
        lemma_place_found(rest, culprit);
        assert forall|i: int| 0 <= i < place(problems, culprit) implies (
        #[trigger] problems[i]).culprit != culprit by {
            if i > 0 {
                assert(rest[i - 1] == problems[i]);
            }
        }
    }
}

proof fn lemma_sightings_update(problems: Seq<ProblemView>, k: int, new: ProblemView)
    requires
        0 <= k < problems.len(),
    ensures
        sightings(problems.update(k, new)) == sightings(problems) - problems[k].count + new.count,
    decreases problems.len(),
{
    let after = problems.update(k, new);
    if k == problems.len() - 1 {
        assert(after.drop_last() == problems.drop_last());
    } else {
        lemma_sightings_update(problems.drop_last(), k, new);
        assert(after.drop_last() == problems.drop_last().update(k, new));
    }
}

/// No kind was seen more often than all together.
pub proof fn lemma_sightings_bound(problems: Seq<ProblemView>, k: int)
    requires
        0 <= k < problems.len(),
    ensures
        problems[k].count <= sightings(problems),
        sightings(problems.drop_last()) >= 0,
    decreases problems.len(),
{
    let front = problems.drop_last();
    if front.len() > 0 {
        lemma_sightings_bound(front, if k < front.len() { k } else { 0 });
        if k < front.len() {
            assert(front[k] == problems[k]);
        }
    } else {
        assert(sightings(front) == 0);
    }
}

/// A run keeps the books: every run is counted as healthy or with exactly one kind
/// of problem, and no kind is listed twice.
pub proof fn law_every_run_is_counted_once(
    t: Tally,
    culprit: Culprit,
    headline: Seq<char>,
    at: Seq<char>,
)
    requires
        t.wf(),
        t.runs < u32::MAX,
    ensures
        after_run(t, culprit, headline, at).wf(),
        after_run(t, culprit, headline, at).runs == t.runs + 1,
{
    let k = place(t.problems, culprit);
    let after = after_run(t, culprit, headline, at);
    lemma_place_found(t.problems, culprit);
    if t.problems.len() > 0 {
        lemma_sightings_bound(t.problems, if 0 <= k < t.problems.len() { k } else { 0 });
    }
    if !(culprit is NoProblem) {
        if k < t.problems.len() {
            let new = ProblemView {
                count: (t.problems[k].count + 1) as u32,
                last: at,
                ..t.problems[k]
            };
            lemma_sightings_update(t.problems, k, new);
        } else {
            assert(after.problems.drop_last() == t.problems);
        }
    }
}

/// A watch under way.
pub struct Watch {
    runs: u32,
    ok_runs: u32,
    prev: Option<Culprit>,
    problems: Vec<ProblemStat>,
}

impl View for Watch {
    type V = Tally;

    closed spec fn view(&self) -> Tally {
        Tally {
            runs: self.runs,
            ok_runs: self.ok_runs,
            prev: self.prev,
            problems: problem_views(self.problems@),
        }
    }
}

fn show_loss(path: &Option<PathReport>) -> (s: String)
    ensures
        s@ == loss_text(*path),
{
    match path {
        Some(p) => {
            let mut s = text::dec_text(p.loss_pct.to_shown());
            s.append("%");
            s
        },
        None => "-".to_owned(),
    }
}

/// The line of the timeline for one run.
pub fn timeline_entry(report: &Report, rendered: &RenderedVerdict, lang: Lang) -> (e: TimelineEntry)
    ensures
        entry_shows(e, *report, *rendered, lang),
{
    if let Culprit::NoProblem = rendered.culprit {
        let dns = measure::fmt_ms(diagnose::dns_latency(&report.dns));
        let tcp = measure::fmt_ms(diagnose::connect_average(&report.tcp));
        let first_byte = match &report.http {
            Some(http) => http.ttfb_ms,
            None => None,
        };
        let ttfb = measure::fmt_ms(first_byte);
        let loss = show_loss(&report.path);
        TimelineEntry::Healthy(
            i18n::watch_ok_details(
                lang,
                dns.as_str(),
                tcp.as_str(),
                ttfb.as_str(),
                loss.as_str(),
            ),
        )
    } else {
        let mut s = i18n::msg(lang, MsgKey::VerdictLabel).to_owned();
        s.append(" ");
        s.append(rendered.headline.as_str());
        TimelineEntry::Problem(s)
    }
}

/// The lines of the summary below its heading.
pub open spec fn summary_shown(t: Tally, lang: Lang) -> Seq<Seq<char>> {
    seq![
        i18n::watch_runs_text(
            lang,
            t.runs,
            t.ok_runs,
            (Percent { part: t.ok_runs, whole: t.runs }),
        ),
    ] + problems_shown(t.problems, lang)
}

pub open spec fn problems_shown(problems: Seq<ProblemView>, lang: Lang) -> Seq<Seq<char>> {
    if problems.len() == 0 {
        Seq::empty()
    } else {
        seq![i18n::msg_text(lang, MsgKey::WatchProblemsHeader)] + Seq::new(
            problems.len(),
            |i: int| problem_shown(problems[i], lang),
        )
    }
}

pub open spec fn problem_shown(p: ProblemView, lang: Lang) -> Seq<char> {
    "  "@ + i18n::msg_text(lang, MsgKey::Bullet) + i18n::watch_problem_text(
        lang,
        p.headline,
        p.count,
        p.first,
        p.last,
    )
}

impl Watch {
    pub fn new() -> (w: Self)
        ensures
            w@ == (Tally { runs: 0, ok_runs: 0, prev: None, problems: Seq::empty() }),
            w@.wf(),
    {
        let w = Watch { runs: 0, ok_runs: 0, prev: None, problems: Vec::new() };
        assert(w@.problems =~= Seq::empty());
        w
    }

    fn find(&self, culprit: Culprit) -> (k: usize)
        ensures
            k as int == place(self@.problems, culprit),
            k <= self@.problems.len(),
            self@.problems.len() == self.problems@.len(),
    {
        let mut k: usize = 0;
        while k < self.problems.len() && self.problems[k].culprit != culprit
            invariant
                k <= self.problems@.len(),
                forall|i: int|
                    0 <= i < k ==> (#[trigger] self@.problems[i]).culprit != culprit,
            decreases self.problems@.len() - k,
        {
            assert(self@.problems[k as int].culprit == self.problems@[k as int].culprit);
            k = k + 1;
        }
        proof {
            if k < self.problems@.len() {
                assert(self@.problems[k as int].culprit == self.problems@[k as int].culprit);
            }
            lemma_place(self@.problems, culprit, k as int);
        }
        k
    }

    fn note(&mut self, culprit: Culprit, headline: &str, at: &str)
        requires
            old(self)@.wf(),
            old(self)@.runs < u32::MAX,
        ensures
            final(self)@ == (Tally {
                problems: seen_again(old(self)@.problems, culprit, headline@, at@),
                ..old(self)@
            }),
    {
        let ghost before = self@;
        let k = self.find(culprit);
        if k < self.problems.len() {
            proof {
                lemma_sightings_bound(before.problems, k as int);
                assert(before.problems[k as int] == self.problems@[k as int]@);
            }
            let stat = ProblemStat {
                culprit: self.problems[k].culprit,
                headline: self.problems[k].headline.clone(),
                count: self.problems[k].count + 1,
                first: self.problems[k].first.clone(),
                last: at.to_owned(),
            };
            self.problems.set(k, stat);
            assert(self@.problems =~= before.problems.update(k as int, stat@));
        } else {
            let stat = ProblemStat {
                culprit,
                headline: headline.to_owned(),
                count: 1,
                first: at.to_owned(),
                last: at.to_owned(),
            };
            self.problems.push(stat);
            assert(self@.problems =~= before.problems.push(stat@));
        }
    }

    /// Takes note of a run, and says whether the whole verdict is to be shown.
    pub fn record(&mut self, rendered: &RenderedVerdict, at: &str) -> (changed: bool)
        requires
            old(self)@.wf(),
            old(self)@.runs < u32::MAX,
        ensures
            final(self)@ == after_run(old(self)@, rendered.culprit, rendered.headline@, at@),
            final(self)@.wf(),
            changed == changes(old(self)@.prev, rendered.culprit),
    {
        proof {
            law_every_run_is_counted_once(self@, rendered.culprit, rendered.headline@, at@);
        }
        let healthy = matches!(rendered.culprit, Culprit::NoProblem);
        let changed = match self.prev {
            Some(p) => p != rendered.culprit,
            None => !healthy,
        };
        if healthy {
            proof {
                if self@.problems.len() > 0 {
                    lemma_sightings_bound(self@.problems, 0);
                }
            }
            self.ok_runs = self.ok_runs + 1;
        } else {
            self.note(rendered.culprit, rendered.headline.as_str(), at);
        }
        self.runs = self.runs + 1;
        self.prev = Some(rendered.culprit);
        changed
    }

    /// The lines of the summary below its heading.
    pub fn summary(&self, lang: Lang) -> (lines: Vec<String>)
        ensures
            text::texts(lines@) == summary_shown(self@, lang),
    {
        let mut lines: Vec<String> = Vec::new();
        lines.push(
            i18n::watch_runs_line(
                lang,
                self.runs,
                self.ok_runs,
                Percent::of(self.ok_runs, self.runs),
            ),
        );
        let ghost top = text::texts(lines@);
        assert(top == summary_shown(self@, lang).take(1));
        if self.problems.len() == 0 {
            return lines;
        }
        lines.push(i18n::msg(lang, MsgKey::WatchProblemsHeader).to_owned());
        let ghost all = problems_shown(self@.problems, lang);
        assert(text::texts(lines@) == top + all.take(1));
        let mut i: usize = 0;
        while i < self.problems.len()
            invariant
                i <= self.problems@.len(),
                self.problems@.len() > 0,
                all == problems_shown(self@.problems, lang),
                text::texts(lines@) == top + all.take(i + 1),
            decreases self.problems@.len() - i,
        {
            let ghost now = text::texts(lines@);
            let p = &self.problems[i];
            let mut s = "  ".to_owned();
            s.append(i18n::msg(lang, MsgKey::Bullet));
            let line = i18n::watch_problem_line(
                lang,
                p.headline.as_str(),
                p.count,
                p.first.as_str(),
                p.last.as_str(),
            );
            s.append(line.as_str());
            assert(s@ == all[i + 1]);
            lines.push(s);
            assert(text::texts(lines@) == now.push(s@));
            i = i + 1;
        }
        assert(all.take(self.problems@.len() as int + 1) == all);
        lines
    }

    /// The exit code of a watch: 0 where no problem was seen, else 1.
    pub fn exit_code(&self) -> (code: i32)
        ensures
            code == if self@.problems.len() == 0 {
                0i32
            } else {
                1i32
            },
    {
        if self.problems.len() == 0 {
            0
        } else {
            1
        }
    }
}

/// The time between two runs, in seconds: at least one.
pub fn interval_secs(secs: u64) -> (r: u64)
    ensures
        r == if secs == 0 {
            1
        } else {
            secs
        },
{
    if secs == 0 {
        1
    } else {
        secs
    }
}

} // verus!
