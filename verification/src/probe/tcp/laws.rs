//! What the choice of addresses and the results of the attempts promise.

use crate::addr::IpAddr;
use crate::i18n::Lang;
use crate::measure::Millis;
use crate::probe::tcp;
use crate::probe::tcp::Attempt;
use crate::report::TcpOutcome;
use vstd::prelude::*;

verus! {

// ── Which addresses ─────────────────────────────────────────────────────

/// The first address of the family stands at `i`.
pub open spec fn first_of(ips: Seq<IpAddr>, v4: bool, i: int) -> bool {
    &&& 0 <= i < ips.len()
    &&& (ips[i] is V4) == v4
    &&& forall|k: int| 0 <= k < i ==> (#[trigger] ips[k] is V4) != v4
}

/// The first other address of the family stands at `j`.
pub open spec fn second_of(ips: Seq<IpAddr>, v4: bool, i: int, j: int) -> bool {
    &&& first_of(ips, v4, i)
    &&& i < j < ips.len()
    &&& (ips[j] is V4) == v4
    &&& ips[j] != ips[i]
    &&& forall|k: int| 0 <= k < j ==> (#[trigger] ips[k] is V4) != v4 || ips[k] == ips[i]
}

/// The first address of the family that is none of these two stands at `k`.
pub open spec fn third_of(ips: Seq<IpAddr>, v4: bool, i: int, j: int, k: int) -> bool {
    &&& second_of(ips, v4, i, j)
    &&& j < k < ips.len()
    &&& (ips[k] is V4) == v4
    &&& ips[k] != ips[i]
    &&& ips[k] != ips[j]
    &&& forall|m: int|
        0 <= m < k ==> (#[trigger] ips[m] is V4) != v4 || ips[m] == ips[i] || ips[m] == ips[j]
}

/// There is no address of the family.
pub open spec fn none_of(ips: Seq<IpAddr>, v4: bool) -> bool {
    forall|k: int| 0 <= k < ips.len() ==> (#[trigger] ips[k] is V4) != v4
}

/// There is one address of the family, that at `i`.
pub open spec fn one_of(ips: Seq<IpAddr>, v4: bool, i: int) -> bool {
    &&& first_of(ips, v4, i)
    &&& forall|k: int| 0 <= k < ips.len() ==> (#[trigger] ips[k] is V4) != v4 || ips[k] == ips[i]
}

/// There are two addresses of the family, those at `i` and `j`.
pub open spec fn two_of(ips: Seq<IpAddr>, v4: bool, i: int, j: int) -> bool {
    &&& second_of(ips, v4, i, j)
    &&& forall|k: int|
        0 <= k < ips.len() ==> (#[trigger] ips[k] is V4) != v4 || ips[k] == ips[i] || ips[k]
            == ips[j]
}

/// The different addresses of the family, in order.
spec fn family(ips: Seq<IpAddr>, v4: bool) -> Seq<IpAddr> {
    tcp::of_family(tcp::distinct(ips), v4)
}

proof fn lemma_family(ips: Seq<IpAddr>, v4: bool)
    ensures
        family(ips, v4).no_duplicates(),
        forall|ip: IpAddr| #[trigger]
            family(ips, v4).contains(ip) <==> ips.contains(ip) && (ip is V4) == v4,
{
    tcp::lemma_distinct(ips);
    tcp::lemma_of_family(tcp::distinct(ips), v4);
}

proof fn lemma_family_push(ips: Seq<IpAddr>, x: IpAddr, v4: bool)
    ensures
        family(ips.push(x), v4) == if (x is V4) == v4 && !ips.contains(x) {
            family(ips, v4).push(x)
        } else {
            family(ips, v4)
        },
{
    tcp::lemma_distinct(ips);
    let d = tcp::distinct(ips);
    assert(ips.push(x).drop_last() =~= ips);
    assert(d.contains(x) <==> ips.contains(x));
    assert(d.push(x).drop_last() =~= d);
}

/// A longer list begins with the addresses of the shorter one.
proof fn lemma_family_grows(ips: Seq<IpAddr>, n: int, v4: bool)
    requires
        0 <= n <= ips.len(),
    ensures
        family(ips.take(n), v4).len() <= family(ips, v4).len(),
        family(ips, v4).take(family(ips.take(n), v4).len() as int) == family(ips.take(n), v4),
    decreases ips.len() - n,
{
    let a = family(ips.take(n), v4);
    if n < ips.len() {
        lemma_family_grows(ips, n + 1, v4);
        assert(ips.take(n + 1) =~= ips.take(n).push(ips[n]));
        lemma_family_push(ips.take(n), ips[n], v4);
        let b = family(ips.take(n + 1), v4);
        let all = family(ips, v4);
        assert(b.take(a.len() as int) =~= a);
        assert(all.take(b.len() as int).take(a.len() as int) =~= all.take(a.len() as int));
    } else {
        assert(ips.take(n) =~= ips);
        assert(a.take(a.len() as int) =~= a);
    }
}

proof fn lemma_none(ips: Seq<IpAddr>, v4: bool)
    requires
        none_of(ips, v4),
    ensures
        family(ips, v4).len() == 0,
{
    let f = family(ips, v4);
    lemma_family(ips, v4);
    if f.len() > 0 {
        assert(f.contains(f[0]));
        let k = choose|k: int| 0 <= k < ips.len() && ips[k] == f[0];
        assert((ips[k] is V4) != v4);
    }
}

proof fn lemma_one(ips: Seq<IpAddr>, v4: bool, i: int)
    requires
        one_of(ips, v4, i),
    ensures
        family(ips, v4) == seq![ips[i]],
{
    let f = family(ips, v4);
    lemma_family(ips, v4);
    assert(ips.contains(ips[i]));
    assert(f.contains(ips[i]));
    assert forall|m: int| 0 <= m < f.len() implies f[m] == ips[i] by {
        assert(f.contains(f[m]));
        let k = choose|k: int| 0 <= k < ips.len() && ips[k] == f[m];
        assert((ips[k] is V4) != v4 || ips[k] == ips[i]);
    }
    if f.len() > 1 {
        assert(f[0] != f[1]);
    }
    assert(f =~= seq![ips[i]]);
}

proof fn lemma_first(ips: Seq<IpAddr>, v4: bool, i: int)
    requires
        first_of(ips, v4, i),
    ensures
        family(ips, v4).len() >= 1,
        family(ips, v4)[0] == ips[i],
{
    let front = ips.take(i);
    assert forall|k: int| 0 <= k < front.len() implies (#[trigger] front[k] is V4) != v4 by {
        assert(front[k] == ips[k]);
    }
    lemma_none(front, v4);
    lemma_family(front, v4);
    assert(ips.take(i + 1) =~= front.push(ips[i]));
    lemma_family_push(front, ips[i], v4);
    if front.contains(ips[i]) {
        let k = choose|k: int| 0 <= k < front.len() && front[k] == ips[i];
        assert((front[k] is V4) != v4);
    }
    lemma_family_grows(ips, i + 1, v4);
    let one = family(ips.take(i + 1), v4);
    assert(one =~= seq![ips[i]]);
    assert(family(ips, v4).take(1)[0] == ips[i]);
}

proof fn lemma_second(ips: Seq<IpAddr>, v4: bool, i: int, j: int)
    requires
        second_of(ips, v4, i, j),
    ensures
        family(ips, v4).len() >= 2,
        family(ips, v4)[0] == ips[i],
        family(ips, v4)[1] == ips[j],
{
    let front = ips.take(j);
    assert(forall|k: int| 0 <= k < j ==> #[trigger] front[k] == ips[k]);
    assert(one_of(front, v4, i));
    lemma_one(front, v4, i);
    assert(ips.take(j + 1) =~= front.push(ips[j]));
    lemma_family_push(front, ips[j], v4);
    if front.contains(ips[j]) {
        let k = choose|k: int| 0 <= k < front.len() && front[k] == ips[j];
        assert((ips[k] is V4) != v4 || ips[k] == ips[i]);
    }
    lemma_family_grows(ips, j + 1, v4);
    let two = family(ips.take(j + 1), v4);
    assert(two =~= seq![ips[i], ips[j]]);
    assert(family(ips, v4).take(2)[0] == ips[i]);
    assert(family(ips, v4).take(2)[1] == ips[j]);
}

proof fn lemma_two(ips: Seq<IpAddr>, v4: bool, i: int, j: int)
    requires
        two_of(ips, v4, i, j),
    ensures
        family(ips, v4) == seq![ips[i], ips[j]],
{
    let f = family(ips, v4);
    lemma_family(ips, v4);
    lemma_second(ips, v4, i, j);
    if f.len() > 2 {
        assert(f.contains(f[2]));
        let k = choose|k: int| 0 <= k < ips.len() && ips[k] == f[2];
        assert((ips[k] is V4) != v4 || ips[k] == ips[i] || ips[k] == ips[j]);
        assert(f[2] != f[0] && f[2] != f[1]);
    }
    assert(f =~= seq![ips[i], ips[j]]);
}

proof fn lemma_third(ips: Seq<IpAddr>, v4: bool, i: int, j: int, k: int)
    requires
        third_of(ips, v4, i, j, k),
    ensures
        family(ips, v4).len() >= 3,
        family(ips, v4)[0] == ips[i],
        family(ips, v4)[1] == ips[j],
        family(ips, v4)[2] == ips[k],
{
    let front = ips.take(k);
    assert(forall|m: int| 0 <= m < k ==> #[trigger] front[m] == ips[m]);
    assert(second_of(front, v4, i, j));
    assert(two_of(front, v4, i, j));
    lemma_two(front, v4, i, j);
    assert(ips.take(k + 1) =~= front.push(ips[k]));
    lemma_family_push(front, ips[k], v4);
    if front.contains(ips[k]) {
        let m = choose|m: int| 0 <= m < front.len() && front[m] == ips[k];
        assert((ips[m] is V4) != v4 || ips[m] == ips[i] || ips[m] == ips[j]);
    }
    lemma_family_grows(ips, k + 1, v4);
    let three = family(ips.take(k + 1), v4);
    assert(three =~= seq![ips[i], ips[j], ips[k]]);
    let t = family(ips, v4).take(3);
    assert(t[0] == ips[i] && t[1] == ips[j] && t[2] == ips[k]);
}

/// Of one family alone, the first three different addresses are tried, in their order.
pub proof fn law_one_family(ips: Seq<IpAddr>, v4: bool, i: int, j: int, k: int)
    requires
        none_of(ips, !v4),
    ensures
        one_of(ips, v4, i) ==> tcp::picked(ips) == seq![ips[i]],
        two_of(ips, v4, i, j) ==> tcp::picked(ips) == seq![ips[i], ips[j]],
        third_of(ips, v4, i, j, k) ==> tcp::picked(ips) == seq![ips[i], ips[j], ips[k]],
{
    let a = family(ips, true);
    let b = family(ips, false);
    lemma_none(ips, !v4);
    if v4 {
        assert(tcp::by_turns(a, b) =~= a);
    } else {
        assert(tcp::by_turns(a, b) =~= b);
    }
    if one_of(ips, v4, i) {
        lemma_one(ips, v4, i);
    }
    if two_of(ips, v4, i, j) {
        lemma_two(ips, v4, i, j);
    }
    if third_of(ips, v4, i, j, k) {
        lemma_third(ips, v4, i, j, k);
        assert(tcp::picked(ips) =~= seq![ips[i], ips[j], ips[k]]);
    }
}

/// Of two families, the first IPv4 address is tried, then the first IPv6 address, then
/// the second IPv4 address or, without one, the second IPv6 address.
pub proof fn law_two_families(ips: Seq<IpAddr>, i: int, j: int, k: int)
    requires
        first_of(ips, true, i),
        first_of(ips, false, j),
    ensures
        second_of(ips, true, i, k) ==> tcp::picked(ips) == seq![ips[i], ips[j], ips[k]],
        one_of(ips, true, i) && second_of(ips, false, j, k) ==> tcp::picked(ips) == seq![
            ips[i],
            ips[j],
            ips[k],
        ],
        one_of(ips, true, i) && one_of(ips, false, j) ==> tcp::picked(ips) == seq![ips[i], ips[j]],
{
    let a = family(ips, true);
    let b = family(ips, false);
    let all = tcp::by_turns(a, b);
    lemma_first(ips, true, i);
    lemma_first(ips, false, j);
    let p = a.skip(1);
    let q = b.skip(1);
    assert(all == seq![a[0], b[0]] + tcp::by_turns(p, q));
    tcp::lemma_by_turns(p, q);
    if second_of(ips, true, i, k) {
        lemma_second(ips, true, i, k);
        assert(p[0] == ips[k]);
        assert(tcp::by_turns(p, q)[0] == p[0]);
        assert(all[2] == ips[k]);
        assert(tcp::picked(ips) =~= seq![ips[i], ips[j], ips[k]]);
    }
    if one_of(ips, true, i) {
        lemma_one(ips, true, i);
        assert(p.len() == 0);
        if second_of(ips, false, j, k) {
            lemma_second(ips, false, j, k);
            assert(q[0] == ips[k]);
            assert(all[2] == ips[k]);
            assert(tcp::picked(ips) =~= seq![ips[i], ips[j], ips[k]]);
        }
        if one_of(ips, false, j) {
            lemma_one(ips, false, j);
            assert(tcp::picked(ips) =~= seq![ips[i], ips[j]]);
        }
    }
}

// ── What the attempts amount to ─────────────────────────────────────────

/// An attempt that connected adds its time, one that failed adds nothing, and two runs
/// of attempts add up.
pub proof fn law_attempts_add_up(a: Seq<Attempt>, b: Seq<Attempt>, ms: Millis, o: TcpOutcome)
    ensures
        tcp::times(seq![Attempt::Connected(ms)]) == seq![ms],
        tcp::times(seq![Attempt::Failed(o)]) == Seq::<Millis>::empty(),
        tcp::times(a + b) == tcp::times(a) + tcp::times(b),
    decreases b.len(),
{
    reveal_with_fuel(tcp::times, 2);
    assert(seq![Attempt::Connected(ms)].drop_last() =~= Seq::<Attempt>::empty());
    assert(seq![Attempt::Failed(o)].drop_last() =~= Seq::<Attempt>::empty());
    assert(tcp::times(seq![Attempt::Connected(ms)]) =~= seq![ms]);
    if b.len() > 0 {
        law_attempts_add_up(a, b.drop_last(), ms, o);
        assert((a + b).drop_last() =~= a + b.drop_last());
        assert(tcp::times(a + b) =~= tcp::times(a) + tcp::times(b));
    } else {
        assert(a + b =~= a);
        assert(tcp::times(a + b) =~= tcp::times(a) + tcp::times(b));
    }
}

proof fn lemma_connected(attempts: Seq<Attempt>, i: int)
    requires
        0 <= i < attempts.len(),
        attempts[i] is Connected,
    ensures
        tcp::times(attempts).len() > 0,
{
    if tcp::times(attempts).len() == 0 {
        tcp::lemma_no_times(attempts, i);
    }
}

proof fn lemma_some_connected(attempts: Seq<Attempt>) -> (i: int)
    requires
        tcp::times(attempts).len() > 0,
    ensures
        0 <= i < attempts.len(),
        attempts[i] is Connected,
    decreases attempts.len(),
{
    if attempts.last() is Connected {
        attempts.len() - 1
    } else {
        lemma_some_connected(attempts.drop_last())
    }
}

/// One connection is enough for an address to count as connected. Without one, a
/// refusal outweighs a timeout, and a timeout outweighs the other errors, of which the
/// first is told.
pub proof fn law_outcome_of_attempts(o: TcpOutcome, attempts: Seq<Attempt>, lang: Lang)
    requires
        tcp::outcome_is(o, attempts, lang),
        attempts.len() > 0,
    ensures
        ({
            let connected = exists|i: int|
                0 <= i < attempts.len() && #[trigger] attempts[i] is Connected;
            let refused = exists|i: int|
                0 <= i < attempts.len() && #[trigger] attempts[i] == Attempt::Failed(
                    TcpOutcome::Refused,
                );
            let timed_out = exists|i: int|
                0 <= i < attempts.len() && #[trigger] attempts[i] == Attempt::Failed(
                    TcpOutcome::Timeout,
                );
            &&& connected ==> o is Connected
            &&& !connected && refused ==> o is Refused
            &&& !connected && !refused && timed_out ==> o is Timeout
            &&& !connected && !refused && !timed_out ==> attempts[0] == Attempt::Failed(o)
        }),
{
    if exists|i: int| 0 <= i < attempts.len() && #[trigger] attempts[i] is Connected {
        let i = choose|i: int| 0 <= i < attempts.len() && #[trigger] attempts[i] is Connected;
        lemma_connected(attempts, i);
    } else if tcp::times(attempts).len() > 0 {
        let i = lemma_some_connected(attempts);
    }
    assert forall|i: int| 0 <= i < attempts.len() implies (tcp::fails_with_refusal(
        #[trigger] attempts[i],
    ) <==> attempts[i] == Attempt::Failed(TcpOutcome::Refused)) by {}
    assert forall|i: int| 0 <= i < attempts.len() implies (tcp::fails_with_timeout(
        #[trigger] attempts[i],
    ) <==> attempts[i] == Attempt::Failed(TcpOutcome::Timeout)) by {}
}

/// The times of an address are there exactly where an attempt connected; the minimum
/// and the maximum are times of attempts, and no time lies outside them.
pub proof fn law_times_of_attempts(
    attempts: Seq<Attempt>,
    min: Option<Millis>,
    avg: Option<Millis>,
    max: Option<Millis>,
    i: int,
)
    requires
        tcp::spread_is(tcp::times(attempts), min, avg, max),
        0 <= i < attempts.len(),
        attempts[i] is Connected,
    ensures
        min is Some && avg is Some && max is Some,
        min->0.nanos <= attempts[i]->Connected_0.nanos <= max->0.nanos,
        exists|k: int|
            0 <= k < attempts.len() && #[trigger] attempts[k] == Attempt::Connected(min->0),
        exists|k: int|
            0 <= k < attempts.len() && #[trigger] attempts[k] == Attempt::Connected(max->0),
{
    let t = tcp::times(attempts);
    let n = lemma_time_kept(attempts, i);
    let a = choose|a: int| 0 <= a < t.len() && t[a] == min->0;
    let b = choose|b: int| 0 <= b < t.len() && t[b] == max->0;
    let k = lemma_time_from(attempts, a);
    let m = lemma_time_from(attempts, b);
}

proof fn lemma_time_kept(attempts: Seq<Attempt>, i: int) -> (n: int)
    requires
        0 <= i < attempts.len(),
        attempts[i] is Connected,
    ensures
        0 <= n < tcp::times(attempts).len(),
        tcp::times(attempts)[n] == attempts[i]->Connected_0,
    decreases attempts.len(),
{
    if i == attempts.len() - 1 {
        tcp::times(attempts).len() - 1
    } else {
        lemma_time_kept(attempts.drop_last(), i)
    }
}

proof fn lemma_time_from(attempts: Seq<Attempt>, n: int) -> (k: int)
    requires
        0 <= n < tcp::times(attempts).len(),
    ensures
        0 <= k < attempts.len(),
        attempts[k] == Attempt::Connected(tcp::times(attempts)[n]),
    decreases attempts.len(),
{
    if attempts.last() is Connected && n == tcp::times(attempts).len() - 1 {
        attempts.len() - 1
    } else {
        lemma_time_from(attempts.drop_last(), n)
    }
}

} // verus!
