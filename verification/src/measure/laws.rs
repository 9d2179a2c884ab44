//! What the measured quantities promise: how they are rounded and shown, and how the
//! statistics add up.

use crate::measure;
use crate::measure::{Millis, Percent};
use crate::text;
use vstd::prelude::*;

verus! {

/// Rounding goes to the nearest integer, and to the even one where two are as near.
pub proof fn law_rounding_is_to_the_nearest(num: nat, den: nat, q: nat)
    requires
        den > 0,
        -(den as int) <= 2 * (num - q * den) <= den,
        2 * (num - q * den) == den || 2 * (num - q * den) == -(den as int) ==> q % 2 == 0,
    ensures
        measure::rounded(num, den) == q,
{
    let f = num / den;
    let r = num % den;
    let d = den as int;
    assert(num == f * den + r && 0 <= r < den) by (nonlinear_arith)
        requires
            den > 0,
            f == num / den,
            r == num % den,
    ;
    let gap = q - f;
    assert(num - q * den == r - gap * d) by (nonlinear_arith)
        requires
            num == f * den + r,
            gap == q - f,
            d == den,
    ;
    assert(gap == 0 || gap == 1) by (nonlinear_arith)
        requires
            0 <= r < d,
            -d <= 2 * (r - gap * d) <= d,
    ;
    if gap == 0 {
        assert(gap * d == 0) by (nonlinear_arith)
            requires
                gap == 0,
        ;
    } else {
        assert(gap * d == d) by (nonlinear_arith)
            requires
                gap == 1,
        ;
    }
}

/// A duration is shown as the nearest whole number of milliseconds, and a missing one
/// as a dash.
pub proof fn law_durations_are_shown_in_milliseconds(m: Millis, ms: nat)
    requires
        -500_000 < m.nanos - ms * 1_000_000 < 500_000,
    ensures
        m.shown() == ms,
        measure::ms_text(Some(m)) == text::dec(ms) + "ms"@,
        measure::ms_text(None) == "-"@,
        measure::ms_text(Some(m)) != "-"@,
{
    law_rounding_is_to_the_nearest(m.nanos as nat, 1_000_000, ms);
    text::lemma_dec(ms);
    reveal_strlit("-");
    reveal_strlit("ms");
    assert(measure::ms_text(Some(m)).len() >= 3);
}

/// A share is shown as the nearest whole number of hundredths. All is a hundred, and
/// nothing, also of nothing, is zero.
pub proof fn law_shares_are_shown_in_hundredths(p: Percent, pct: nat)
    requires
        p.whole > 0,
        -(p.whole as int) < 2 * (p.part * 100 - pct * p.whole) < p.whole,
    ensures
        p.shown() == pct,
        (Percent { part: p.whole, whole: p.whole }).shown() == 100,
        (Percent { part: 0, whole: p.whole }).shown() == 0,
        (Percent { part: p.part, whole: 0 }).shown() == 0,
{
    law_rounding_is_to_the_nearest(p.part as nat * 100, p.whole as nat, pct);
    law_rounding_is_to_the_nearest(p.whole as nat * 100, p.whole as nat, 100);
    assert(0 * p.whole == 0);
    law_rounding_is_to_the_nearest(0, p.whole as nat, 0);
}

/// A share of at least so many hundredths stays one when the part grows, and none is
/// above the whole.
pub proof fn law_shares_grow_with_the_part(p: Percent, more: Percent, pct: nat)
    requires
        p.whole > 0,
        more.whole == p.whole,
        p.part <= more.part,
    ensures
        p.at_least(pct) ==> more.at_least(pct),
        p.at_least(100) <==> p.part >= p.whole,
        p.positive() <==> p.part >= 1,
        p.at_least(0),
        p.at_least(50) <==> p.part >= p.whole - p.part,
{
}

/// The share of nothing is none: it is not above zero, and it is at least zero and no more.
pub proof fn law_share_of_nothing(part: u32, pct: nat)
    ensures
        ({
            let p = Percent { part, whole: 0 };
            &&& !p.positive()
            &&& p.at_least(pct) <==> pct == 0
            &&& p.shown() == 0
        }),
{
}

/// Durations are compared in milliseconds.
pub proof fn law_durations_are_compared_in_milliseconds(m: Millis, ms: int, past: int)
    requires
        m.nanos == ms * 1_000_000 + past,
        -1_000_000 < past < 1_000_000,
    ensures
        m.over(ms) <==> past > 0,
        m.under(ms) <==> past < 0,
{
}

/// The shorter of two durations is one of them, and neither is shorter than it. A
/// missing one leaves the other.
pub proof fn law_shorter(a: Millis, b: Millis)
    ensures
        ({
            let m = measure::shorter(Some(a), Some(b));
            &&& m == Some(a) || m == Some(b)
            &&& m->0.nanos <= a.nanos
            &&& m->0.nanos <= b.nanos
        }),
        measure::shorter(Some(a), None) == Some(a),
        measure::shorter(None, Some(b)) == Some(b),
        measure::shorter(None, None) is None,
{
}

/// The sum of a duration alone is that duration, and the sum of a list is the sum of
/// its two parts.
pub proof fn law_total_adds_up(m: Millis, a: Seq<Millis>, b: Seq<Millis>)
    ensures
        measure::total(seq![m]) == m.nanos,
        measure::total(a + b) == measure::total(a) + measure::total(b),
    decreases b.len(),
{
    reveal_with_fuel(measure::total, 2);
    assert(seq![m].drop_last() =~= Seq::<Millis>::empty());
    if b.len() > 0 {
        law_total_adds_up(m, a, b.drop_last());
        assert((a + b).drop_last() =~= a + b.drop_last());
    } else {
        assert(a + b =~= a);
    }
}

/// The spread of a duration alone is the square of its distance, and the spread of a
/// list is the sum of those of its two parts.
pub proof fn law_spread_adds_up(m: Millis, a: Seq<Millis>, b: Seq<Millis>, mid: int)
    ensures
        measure::squared_spread(seq![m], mid) == (m.nanos - mid) * (m.nanos - mid),
        measure::squared_spread(a + b, mid) == measure::squared_spread(a, mid)
            + measure::squared_spread(b, mid),
    decreases b.len(),
{
    reveal_with_fuel(measure::squared_spread, 2);
    assert(seq![m].drop_last() =~= Seq::<Millis>::empty());
    assert((m.nanos - mid) * (m.nanos - mid) >= 0) by (nonlinear_arith);
    if b.len() > 0 {
        law_spread_adds_up(m, a, b.drop_last(), mid);
        assert((a + b).drop_last() =~= a + b.drop_last());
    } else {
        assert(a + b =~= a);
    }
}

/// The mean of equal durations is that duration, and their deviation is none.
pub proof fn law_equal_durations_do_not_spread(values: Seq<Millis>, each: Millis, m: Millis, d: Millis)
    requires
        values.len() > 0,
        forall|i: int| 0 <= i < values.len() ==> #[trigger] values[i] == each,
        measure::is_mean(values, m),
        measure::is_deviation(values, each, d),
    ensures
        m == each,
        d.nanos == 0,
{
    lemma_equal(values, each);
    let n = values.len() as int;
    let e = each.nanos as int;
    let x = m.nanos as int;
    assert(x == e) by (nonlinear_arith)
        requires
            n > 0,
            x * n <= e * n < (x + 1) * n,
    ;
    let y = d.nanos as int;
    assert(y == 0) by (nonlinear_arith)
        requires
            n > 0,
            y >= 0,
            (y * y) * n <= 0,
    ;
}

proof fn lemma_equal(values: Seq<Millis>, each: Millis)
    requires
        forall|i: int| 0 <= i < values.len() ==> #[trigger] values[i] == each,
    ensures
        measure::total(values) == each.nanos * values.len(),
        measure::squared_spread(values, each.nanos as int) == 0,
    decreases values.len(),
{
    let e = each.nanos as int;
    let n = values.len() as int;
    if n > 0 {
        let front = values.drop_last();
        assert forall|i: int| 0 <= i < front.len() implies #[trigger] front[i] == each by {
            assert(front[i] == values[i]);
        }
        lemma_equal(front, each);
        assert(values[n - 1] == each);
        assert(e * n == e * (n - 1) + e) by (nonlinear_arith);
        assert((e - e) * (e - e) == 0);
    }
}

} // verus!
