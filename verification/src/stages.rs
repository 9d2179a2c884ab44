//! Which stages ran, how long they took, and which were left out.

pub mod laws;

use crate::measure::Millis;
use crate::report::{Completeness, StageDuration, StageName, TruncationReason};
use vstd::prelude::*;

verus! {

/// All stages, in the order in which they run.
pub open spec fn all_stages() -> Seq<StageName> {
    seq![
        StageName::Env,
        StageName::Dns,
        StageName::Tcp,
        StageName::Tls,
        StageName::Http,
        StageName::Quic,
        StageName::Path,
        StageName::Trace,
    ]
}

/// The stages of `list` that did not run, in their order.
pub open spec fn left_out(list: Seq<StageName>, ran: Seq<StageName>) -> Seq<StageName>
    decreases list.len(),
{
    if list.len() == 0 {
        Seq::empty()
    } else {
        let rest = left_out(list.drop_last(), ran);
        if ran.contains(list.last()) {
            rest
        } else {
            rest.push(list.last())
        }
    }
}

/// The record of a diagnosis under way.
pub struct StageTracker {
    pub durations: Vec<StageDuration>,
    pub ran: Vec<StageName>,
}

fn has_run(ran: &[StageName], stage: StageName) -> (r: bool)
    ensures
        r == ran@.contains(stage),
{
    let mut i: usize = 0;
    while i < ran.len()
        invariant
            i <= ran.len(),
            forall|j: int| 0 <= j < i ==> #[trigger] ran@[j] != stage,
        decreases ran.len() - i,
    {
        if ran[i] == stage {
            return true;
        }
        i = i + 1;
    }
    false
}

impl StageTracker {
    pub fn new() -> (t: Self)
        ensures
            t.durations@.len() == 0,
            t.ran@.len() == 0,
    {
        StageTracker { durations: Vec::new(), ran: Vec::new() }
    }

    /// Takes note of a stage that ran, and of how long it took.
    pub fn record(&mut self, stage: StageName, ms: Millis)
        ensures
            final(self).durations@ == old(self).durations@.push(StageDuration { stage, ms }),
            final(self).ran@ == old(self).ran@.push(stage),
    {
        self.durations.push(StageDuration { stage, ms });
        self.ran.push(stage);
    }

    /// Takes note of a stage that was settled without measuring anything.
    pub fn settle(&mut self, stage: StageName)
        ensures
            final(self).durations@ == old(self).durations@,
            final(self).ran@ == old(self).ran@.push(stage),
    {
        self.ran.push(stage);
    }

    /// The stages that did not run.
    pub fn skipped(&self) -> (list: Vec<StageName>)
        ensures
            list@ == left_out(all_stages(), self.ran@),
    {
        let all: Vec<StageName> = vec![
            StageName::Env,
            StageName::Dns,
            StageName::Tcp,
            StageName::Tls,
            StageName::Http,
            StageName::Quic,
            StageName::Path,
            StageName::Trace,
        ];
        let mut list: Vec<StageName> = Vec::new();
        let mut i: usize = 0;
        while i < all.len()
            invariant
                i <= all@.len(),
                all@ == all_stages(),
                list@ == left_out(all@.take(i as int), self.ran@),
            decreases all@.len() - i,
        {
            assert(all@.take(i + 1).drop_last() == all@.take(i as int));
            if !has_run(self.ran.as_slice(), all[i]) {
                list.push(all[i]);
            }
            i = i + 1;
        }
        assert(all@.take(all@.len() as int) == all@);
        list
    }

    /// How complete the diagnosis is. The stages that did not run count as skipped
    /// only where the diagnosis was cut short: a complete one leaves out the stages
    /// that do not apply to its target.
    pub fn into_completeness(self, truncated_reason: Option<TruncationReason>) -> (c: Completeness)
        ensures
            c.complete == (truncated_reason is None),
            c.truncated_reason == truncated_reason,
            c.ran_stages@ == self.ran@,
            c.skipped_stages@ == if truncated_reason is Some {
                left_out(all_stages(), self.ran@)
            } else {
                Seq::empty()
            },
    {
        let skipped_stages = if truncated_reason.is_some() {
            self.skipped()
        } else {
            Vec::new()
        };
        Completeness {
            complete: truncated_reason.is_none(),
            truncated_reason,
            ran_stages: self.ran,
            skipped_stages,
        }
    }
}

proof fn lemma_left_out(list: Seq<StageName>, ran: Seq<StageName>, stage: StageName)
    ensures
        left_out(list, ran).contains(stage) <==> list.contains(stage) && !ran.contains(stage),
    decreases list.len(),
{
    if list.len() > 0 {
        let front = list.drop_last();
        lemma_left_out(front, ran, stage);
        assert(list == front.push(list.last()));
        let rest = left_out(front, ran);
        if list.contains(stage) {
            let k = choose|k: int| 0 <= k < list.len() && list[k] == stage;
            if k < front.len() {
                assert(front[k] == stage);
            }
        }
        if front.contains(stage) {
            let k = choose|k: int| 0 <= k < front.len() && front[k] == stage;
            assert(list[k] == stage);
        }
        if rest.contains(stage) {
            let k = choose|k: int| 0 <= k < rest.len() && rest[k] == stage;
            assert(rest.push(list.last())[k] == stage);
        }
        if !ran.contains(list.last()) {
            assert(rest.push(list.last())[rest.len() as int] == list.last());
        }
        assert(list[list.len() - 1] == list.last());
    }
}

/// Of a diagnosis that was cut short, every stage either ran or was skipped, and
/// none did both.
pub proof fn law_every_stage_ran_or_was_skipped(ran: Seq<StageName>, stage: StageName)
    ensures
        ran.contains(stage) != left_out(all_stages(), ran).contains(stage),
{
    lemma_left_out(all_stages(), ran, stage);
    let all = all_stages();
    assert(all[0] == StageName::Env && all[1] == StageName::Dns && all[2] == StageName::Tcp
        && all[3] == StageName::Tls && all[4] == StageName::Http && all[5] == StageName::Quic
        && all[6] == StageName::Path && all[7] == StageName::Trace);
    assert(all.contains(stage));
}

} // verus!
