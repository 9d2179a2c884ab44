//! TCP: which addresses to connect to, and what the attempts amount to.

pub mod laws;

use crate::addr::IpAddr;
use crate::addr;
use crate::i18n;
use crate::i18n::Lang;
use crate::measure;
use crate::measure::Millis;
use crate::report::{TcpOutcome, TcpProbe};
use vstd::prelude::*;

verus! {

/// So many addresses are tried.
pub const MAX_TARGETS: usize = 3;

/// The pause between two attempts, in milliseconds.
pub const ATTEMPT_PAUSE_MS: u64 = 50;

/// The addresses, each at its first place only.
pub open spec fn distinct(ips: Seq<IpAddr>) -> Seq<IpAddr>
    decreases ips.len(),
{
    if ips.len() == 0 {
        Seq::empty()
    } else {
        let rest = distinct(ips.drop_last());
        if rest.contains(ips.last()) {
            rest
        } else {
            rest.push(ips.last())
        }
    }
}

/// The addresses of one family, in order.
pub open spec fn of_family(ips: Seq<IpAddr>, v4: bool) -> Seq<IpAddr>
    decreases ips.len(),
{
    if ips.len() == 0 {
        Seq::empty()
    } else {
        let rest = of_family(ips.drop_last(), v4);
        if (ips.last() is V4) == v4 {
            rest.push(ips.last())
        } else {
            rest
        }
    }
}

/// The two lists by turns, and then what is left of the longer one.
pub open spec fn by_turns(a: Seq<IpAddr>, b: Seq<IpAddr>) -> Seq<IpAddr>
    decreases a.len(),
{
    if a.len() == 0 {
        b
    } else if b.len() == 0 {
        a
    } else {
        seq![a[0], b[0]] + by_turns(a.skip(1), b.skip(1))
    }
}

/// The first ones of a list, as many as are tried.
pub open spec fn capped(ips: Seq<IpAddr>) -> Seq<IpAddr> {
    if ips.len() <= MAX_TARGETS {
        ips
    } else {
        ips.take(MAX_TARGETS as int)
    }
}

/// The addresses that are tried: IPv4 and IPv6 by turns.
pub open spec fn picked(ips: Seq<IpAddr>) -> Seq<IpAddr> {
    let d = distinct(ips);
    capped(by_turns(of_family(d, true), of_family(d, false)))
}

fn drop_repeats(ips: &[IpAddr]) -> (v: Vec<IpAddr>)
    ensures
        v@ == distinct(ips@),
{
    let mut v: Vec<IpAddr> = Vec::new();
    let mut i: usize = 0;
    while i < ips.len()
        invariant
            i <= ips.len(),
            v@ == distinct(ips@.take(i as int)),
        decreases ips.len() - i,
    {
        assert(ips@.take(i + 1).drop_last() == ips@.take(i as int));
        if !addr::holds(v.as_slice(), ips[i]) {
            v.push(ips[i]);
        }
        i = i + 1;
    }
    assert(ips@.take(ips@.len() as int) == ips@);
    v
}

fn select_family(ips: &[IpAddr], v4: bool) -> (v: Vec<IpAddr>)
    ensures
        v@ == of_family(ips@, v4),
{
    let mut v: Vec<IpAddr> = Vec::new();
    let mut i: usize = 0;
    while i < ips.len()
        invariant
            i <= ips.len(),
            v@ == of_family(ips@.take(i as int), v4),
        decreases ips.len() - i,
    {
        assert(ips@.take(i + 1).drop_last() == ips@.take(i as int));
        if ips[i].is_v4() == v4 {
            v.push(ips[i]);
        }
        i = i + 1;
    }
    assert(ips@.take(ips@.len() as int) == ips@);
    v
}

/// What is left of a list after its first `k` items.
spec fn left(ips: Seq<IpAddr>, k: int) -> Seq<IpAddr> {
    if k <= ips.len() {
        ips.skip(k)
    } else {
        Seq::empty()
    }
}

fn take_turns(a: &[IpAddr], b: &[IpAddr]) -> (out: Vec<IpAddr>)
    ensures
        out@ == capped(by_turns(a@, b@)),
{
    let ghost all = by_turns(a@, b@);
    let mut out: Vec<IpAddr> = Vec::new();
    let mut k: usize = 0;
    assert(a@.skip(0) == a@ && b@.skip(0) == b@);
    assert(out@ + all == all);
    while out.len() < MAX_TARGETS && (k < a.len() || k < b.len())
        invariant
            all == by_turns(a@, b@),
            out@.len() <= MAX_TARGETS,
            out@.len() < MAX_TARGETS ==> out@ + by_turns(left(a@, k as int), left(b@, k as int))
                == all,
            out@.len() == MAX_TARGETS ==> out@ == capped(all),
        decreases MAX_TARGETS - out@.len(),
    {
        let ghost x = left(a@, k as int);
        let ghost y = left(b@, k as int);
        let ghost before = out@;
        proof {
            if k < a.len() {
                assert(x.skip(1) == left(a@, k + 1));
                assert(x[0] == a@[k as int]);
            }
            if k < b.len() {
                assert(y.skip(1) == left(b@, k + 1));
                assert(y[0] == b@[k as int]);
            }
            if k < a.len() && !(k < b.len()) {
                assert(y == Seq::<IpAddr>::empty());
                assert(left(b@, k + 1) == Seq::<IpAddr>::empty());
                assert(by_turns(x, y) == seq![x[0]] + x.skip(1));
                assert(by_turns(left(a@, k + 1), left(b@, k + 1)) == x.skip(1));
            }
            if !(k < a.len()) {
                assert(x == Seq::<IpAddr>::empty());
                assert(left(a@, k + 1) == Seq::<IpAddr>::empty());
                assert(by_turns(x, y) == seq![y[0]] + y.skip(1));
            }
        }
        if k < a.len() {
            out.push(a[k]);
        }
        if out.len() < MAX_TARGETS && k < b.len() {
            out.push(b[k]);
        }
        proof {
            let rest = by_turns(left(a@, k + 1), left(b@, k + 1));
            if out@.len() == before.len() + 2 || !(k < a.len() && k < b.len()) {
                assert(out@ + rest =~= all);
            }
            if out@.len() == MAX_TARGETS {
                assert(out@ =~= all.take(MAX_TARGETS as int));
                assert(all.len() == MAX_TARGETS ==> all.take(MAX_TARGETS as int) =~= all);
            }
        }
        k = k + 1;
    }
    proof {
        if out@.len() < MAX_TARGETS {
            assert(left(a@, k as int) =~= Seq::<IpAddr>::empty());
            assert(left(b@, k as int) =~= Seq::<IpAddr>::empty());
            assert(out@ =~= all);
        }
    }
    out
}

/// Picks the addresses to connect to, at most three, of both families where there
/// are both.
pub fn pick_targets(ips: &[IpAddr]) -> (out: Vec<IpAddr>)
    ensures
        out@ == picked(ips@),
{
    let seen = drop_repeats(ips);
    let v4 = select_family(seen.as_slice(), true);
    let v6 = select_family(seen.as_slice(), false);
    take_turns(v4.as_slice(), v6.as_slice())
}

// ── What the attempts amount to ─────────────────────────────────────────

/// One attempt to connect.
#[derive(Debug)]
pub enum Attempt {
    /// It connected, after so long.
    Connected(Millis),
    Failed(TcpOutcome),
}

/// The times of the attempts that connected, in order.
pub open spec fn times(attempts: Seq<Attempt>) -> Seq<Millis>
    decreases attempts.len(),
{
    if attempts.len() == 0 {
        Seq::empty()
    } else {
        match attempts.last() {
            Attempt::Connected(ms) => times(attempts.drop_last()).push(ms),
            Attempt::Failed(_) => times(attempts.drop_last()),
        }
    }
}

pub open spec fn fails_with_refusal(a: Attempt) -> bool {
    a matches Attempt::Failed(o) && o is Refused
}

pub open spec fn fails_with_timeout(a: Attempt) -> bool {
    a matches Attempt::Failed(o) && o is Timeout
}

/// How the attempts ended: connected where one did, else refused where one was,
/// else timed out where one did, else as the first one failed.
pub open spec fn outcome_is(o: TcpOutcome, attempts: Seq<Attempt>, lang: Lang) -> bool {
    if times(attempts).len() > 0 {
        o is Connected
    } else if exists|i: int|
        0 <= i < attempts.len() && fails_with_refusal(#[trigger] attempts[i]) {
        o is Refused
    } else if exists|i: int|
        0 <= i < attempts.len() && fails_with_timeout(#[trigger] attempts[i]) {
        o is Timeout
    } else if attempts.len() > 0 {
        attempts[0] == Attempt::Failed(o)
    } else {
        o matches TcpOutcome::Error(e) && e@ == i18n::probe_no_attempts_text(lang)
    }
}

/// Minimum, mean and maximum of the times; nothing where there are none.
pub open spec fn spread_is(
    times: Seq<Millis>,
    min: Option<Millis>,
    avg: Option<Millis>,
    max: Option<Millis>,
) -> bool {
    if times.len() == 0 {
        min is None && avg is None && max is None
    } else {
        &&& min is Some && measure::is_shortest(times, min->0)
        &&& avg is Some && measure::is_mean(times, avg->0)
        &&& max is Some && measure::is_longest(times, max->0)
    }
}

proof fn lemma_times_len(attempts: Seq<Attempt>)
    ensures
        times(attempts).len() <= attempts.len(),
    decreases attempts.len(),
{
    if attempts.len() > 0 {
        lemma_times_len(attempts.drop_last());
    }
}

proof fn lemma_no_times(attempts: Seq<Attempt>, i: int)
    requires
        times(attempts).len() == 0,
        0 <= i < attempts.len(),
    ensures
        attempts[i] is Failed,
    decreases attempts.len(),
{
    if i < attempts.len() - 1 {
        lemma_no_times(attempts.drop_last(), i);
    }
}

fn collect_times(attempts: &[Attempt]) -> (v: Vec<Millis>)
    ensures
        v@ == times(attempts@),
{
    let mut v: Vec<Millis> = Vec::new();
    let mut i: usize = 0;
    while i < attempts.len()
        invariant
            i <= attempts.len(),
            v@ == times(attempts@.take(i as int)),
        decreases attempts.len() - i,
    {
        assert(attempts@.take(i + 1).drop_last() == attempts@.take(i as int));
        if let Attempt::Connected(ms) = &attempts[i] {
            v.push(*ms);
        }
        i = i + 1;
    }
    assert(attempts@.take(attempts@.len() as int) == attempts@);
    v
}

fn any_refused(attempts: &[Attempt]) -> (r: bool)
    ensures
        r == (exists|i: int|
            0 <= i < attempts@.len() && fails_with_refusal(#[trigger] attempts@[i])),
{
    let mut i: usize = 0;
    while i < attempts.len()
        invariant
            i <= attempts.len(),
            forall|j: int| 0 <= j < i ==> !fails_with_refusal(#[trigger] attempts@[j]),
        decreases attempts.len() - i,
    {
        if let Attempt::Failed(TcpOutcome::Refused) = &attempts[i] {
            assert(fails_with_refusal(attempts@[i as int]));
            return true;
        }
        i = i + 1;
    }
    false
}

fn any_timed_out(attempts: &[Attempt]) -> (r: bool)
    ensures
        r == (exists|i: int|
            0 <= i < attempts@.len() && fails_with_timeout(#[trigger] attempts@[i])),
{
    let mut i: usize = 0;
    while i < attempts.len()
        invariant
            i <= attempts.len(),
            forall|j: int| 0 <= j < i ==> !fails_with_timeout(#[trigger] attempts@[j]),
        decreases attempts.len() - i,
    {
        if let Attempt::Failed(TcpOutcome::Timeout) = &attempts[i] {
            assert(fails_with_timeout(attempts@[i as int]));
            return true;
        }
        i = i + 1;
    }
    false
}

fn outcome_of(attempts: &[Attempt], connected: bool, lang: Lang) -> (o: TcpOutcome)
    requires
        connected == (times(attempts@).len() > 0),
    ensures
        outcome_is(o, attempts@, lang),
{
    if connected {
        return TcpOutcome::Connected;
    }
    if any_refused(attempts) {
        return TcpOutcome::Refused;
    }
    if any_timed_out(attempts) {
        return TcpOutcome::Timeout;
    }
    if attempts.len() > 0 {
        proof {
            lemma_no_times(attempts@, 0);
        }
        if let Attempt::Failed(o) = &attempts[0] {
            return o.clone();
        }
    }
    TcpOutcome::Error(i18n::probe_no_attempts(lang))
}

/// Sums up the attempts to connect to one address.
pub fn summarize(ip: IpAddr, port: u16, attempts: &[Attempt], lang: Lang) -> (p: TcpProbe)
    requires
        attempts@.len() <= u32::MAX,
    ensures
        p.ip == ip,
        p.port == port,
        p.samples == attempts@.len(),
        p.successes == times(attempts@).len(),
        outcome_is(p.outcome, attempts@, lang),
        spread_is(times(attempts@), p.min_ms, p.avg_ms, p.max_ms),
{
    proof {
        lemma_times_len(attempts@);
    }
    let ok = collect_times(attempts);
    let outcome = outcome_of(attempts, ok.len() > 0, lang);
    let (min_ms, avg_ms, max_ms) = if ok.len() == 0 {
        (None, None, None)
    } else {
        (
            Some(measure::shortest(ok.as_slice())),
            Some(measure::mean(ok.as_slice())),
            Some(measure::longest(ok.as_slice())),
        )
    };
    TcpProbe {
        ip,
        port,
        samples: attempts.len() as u32,
        successes: ok.len() as u32,
        outcome,
        min_ms,
        avg_ms,
        max_ms,
    }
}

// ── What holds of every choice ──────────────────────────────────────────

proof fn lemma_distinct(ips: Seq<IpAddr>)
    ensures
        distinct(ips).no_duplicates(),
        forall|ip: IpAddr| distinct(ips).contains(ip) <==> ips.contains(ip),
    decreases ips.len(),
{
    if ips.len() > 0 {
        let front = ips.drop_last();
        let rest = distinct(front);
        lemma_distinct(front);
        assert(ips == front.push(ips.last()));
        assert forall|ip: IpAddr| distinct(ips).contains(ip) <==> ips.contains(ip) by {
            lemma_pushed(front, ips.last(), ip);
            lemma_pushed(rest, ips.last(), ip);
        }
    }
}

proof fn lemma_pushed(list: Seq<IpAddr>, new: IpAddr, ip: IpAddr)
    ensures
        list.push(new).contains(ip) <==> list.contains(ip) || ip == new,
{
    let after = list.push(new);
    if list.contains(ip) {
        let k = choose|k: int| 0 <= k < list.len() && list[k] == ip;
        assert(after[k] == ip);
    }
    if ip == new {
        assert(after[list.len() as int] == ip);
    }
    if after.contains(ip) && ip != new {
        let k = choose|k: int| 0 <= k < after.len() && after[k] == ip;
        assert(list[k] == ip);
    }
}

proof fn lemma_of_family(ips: Seq<IpAddr>, v4: bool)
    ensures
        forall|ip: IpAddr| #[trigger]
            of_family(ips, v4).contains(ip) <==> (ips.contains(ip) && (ip is V4) == v4),
        ips.no_duplicates() ==> of_family(ips, v4).no_duplicates(),
    decreases ips.len(),
{
    if ips.len() > 0 {
        let front = ips.drop_last();
        let rest = of_family(front, v4);
        lemma_of_family(front, v4);
        assert(ips == front.push(ips.last()));
        assert forall|ip: IpAddr| #[trigger]
            of_family(ips, v4).contains(ip) <==> (ips.contains(ip) && (ip is V4) == v4) by {
            lemma_pushed(front, ips.last(), ip);
            lemma_pushed(rest, ips.last(), ip);
        }
        if ips.no_duplicates() {
            assert(!front.contains(ips.last())) by {
                if front.contains(ips.last()) {
                    let k = choose|k: int| 0 <= k < front.len() && front[k] == ips.last();
                    assert(ips[k] == ips[ips.len() - 1]);
                }
            }
            assert(front.no_duplicates());
            assert(!rest.contains(ips.last()));
            lemma_push_unique(rest, ips.last());
        }
    }
}

proof fn lemma_push_unique(list: Seq<IpAddr>, new: IpAddr)
    requires
        list.no_duplicates(),
        !list.contains(new),
    ensures
        list.push(new).no_duplicates(),
{
    let after = list.push(new);
    assert forall|i: int, j: int|
        0 <= i < after.len() && 0 <= j < after.len() && i != j implies after[i] != after[j] by {
        if i == list.len() {
            assert(list[j] == after[j]);
        } else if j == list.len() {
            assert(list[i] == after[i]);
        }
    }
}

proof fn lemma_by_turns(a: Seq<IpAddr>, b: Seq<IpAddr>)
    ensures
        by_turns(a, b).len() == a.len() + b.len(),
        forall|i: int|
            0 <= i < by_turns(a, b).len() ==> a.contains(#[trigger] by_turns(a, b)[i])
                || b.contains(by_turns(a, b)[i]),
    decreases a.len(),
{
    if a.len() > 0 && b.len() > 0 {
        lemma_by_turns(a.skip(1), b.skip(1));
        let rest = by_turns(a.skip(1), b.skip(1));
        assert forall|i: int| 0 <= i < by_turns(a, b).len() implies a.contains(
            #[trigger] by_turns(a, b)[i],
        ) || b.contains(by_turns(a, b)[i]) by {
            if i >= 2 {
                let x = rest[i - 2];
                assert(by_turns(a, b)[i] == x);
                if a.skip(1).contains(x) {
                    let k = choose|k: int| 0 <= k < a.skip(1).len() && a.skip(1)[k] == x;
                    assert(a[k + 1] == x);
                } else {
                    let k = choose|k: int| 0 <= k < b.skip(1).len() && b.skip(1)[k] == x;
                    assert(b[k + 1] == x);
                }
            } else if i == 0 {
                assert(a[0] == by_turns(a, b)[0]);
            } else {
                assert(b[0] == by_turns(a, b)[1]);
            }
        }
    }
}

proof fn lemma_by_turns_unique(a: Seq<IpAddr>, b: Seq<IpAddr>)
    requires
        a.no_duplicates(),
        b.no_duplicates(),
        forall|i: int, j: int|
            0 <= i < a.len() && 0 <= j < b.len() ==> #[trigger] a[i] != #[trigger] b[j],
    ensures
        by_turns(a, b).no_duplicates(),
    decreases a.len(),
{
    if a.len() > 0 && b.len() > 0 {
        let p = a.skip(1);
        let q = b.skip(1);
        lemma_by_turns_unique(p, q);
        lemma_by_turns(p, q);
        let rest = by_turns(p, q);
        let all = by_turns(a, b);
        assert forall|i: int| 0 <= i < rest.len() implies #[trigger] rest[i] != a[0] && rest[i]
            != b[0] by {
            if p.contains(rest[i]) {
                let k = choose|k: int| 0 <= k < p.len() && p[k] == rest[i];
                assert(a[k + 1] == rest[i]);
            } else {
                let k = choose|k: int| 0 <= k < q.len() && q[k] == rest[i];
                assert(b[k + 1] == rest[i]);
            }
        }
        assert forall|i: int, j: int|
            0 <= i < all.len() && 0 <= j < all.len() && i != j implies all[i] != all[j] by {
            if i >= 2 {
                assert(all[i] == rest[i - 2]);
            }
            if j >= 2 {
                assert(all[j] == rest[j - 2]);
            }
            assert(all[0] == a[0] && all[1] == b[0]);
        }
    }
}

/// Only addresses of the list are tried, none twice and three at most; where the list holds both
/// families, so does the choice; and a list that is not empty gives a choice that is
/// not empty.
pub proof fn law_both_families_are_tried(ips: Seq<IpAddr>)
    ensures
        picked(ips).len() <= 3,
        picked(ips).no_duplicates(),
        forall|i: int| 0 <= i < picked(ips).len() ==> ips.contains(#[trigger] picked(ips)[i]),
        ips.len() > 0 ==> picked(ips).len() > 0,
        (exists|i: int| 0 <= i < ips.len() && #[trigger] ips[i] is V4) && (exists|i: int|
            0 <= i < ips.len() && #[trigger] ips[i] is V6) ==> picked(ips).len() >= 2
            && picked(ips)[0] is V4 && picked(ips)[1] is V6,
{
    let d = distinct(ips);
    let a = of_family(d, true);
    let b = of_family(d, false);
    lemma_distinct(ips);
    lemma_of_family(d, true);
    lemma_of_family(d, false);
    lemma_by_turns(a, b);
    assert forall|i: int, j: int| 0 <= i < a.len() && 0 <= j < b.len() implies #[trigger] a[i]
        != #[trigger] b[j] by {
        assert(a.contains(a[i]) && b.contains(b[j]));
    }
    lemma_by_turns_unique(a, b);
    let all = by_turns(a, b);
    assert forall|i: int| 0 <= i < picked(ips).len() implies ips.contains(
        #[trigger] picked(ips)[i],
    ) by {
        assert(picked(ips)[i] == all[i]);
        assert(d.contains(all[i]));
    }
    if ips.len() > 0 {
        assert(ips.contains(ips[0]));
        assert(d.contains(ips[0]));
        assert(a.contains(ips[0]) || b.contains(ips[0]));
    }
    if (exists|i: int| 0 <= i < ips.len() && #[trigger] ips[i] is V4) && (exists|i: int|
        0 <= i < ips.len() && #[trigger] ips[i] is V6) {
        let i = choose|i: int| 0 <= i < ips.len() && #[trigger] ips[i] is V4;
        let j = choose|i: int| 0 <= i < ips.len() && #[trigger] ips[i] is V6;
        assert(ips.contains(ips[i]) && ips.contains(ips[j]));
        assert(a.contains(ips[i]));
        assert(b.contains(ips[j]));
        assert(a.contains(a[0]));
        assert(b.contains(b[0]));
    }
}

} // verus!
