//! Measured quantities as exact integers: durations in nanoseconds, shares as a
//! part of a whole, and the statistics taken over durations.

pub mod laws;

use crate::text;
use vstd::prelude::*;

verus! {

/// A duration, kept in nanoseconds and shown in whole milliseconds.
#[derive(Debug, Clone, Copy, PartialEq, Eq, Structural)]
pub struct Millis {
    pub nanos: u64,
}

/// The share `part / whole`, read as a percentage. The share of nothing is zero.
#[derive(Debug, Clone, Copy, PartialEq, Eq, Structural)]
pub struct Percent {
    pub part: u32,
    pub whole: u32,
}

/// `num / den` rounded to the nearest integer, a tie to the even one.
pub open spec fn rounded(num: nat, den: nat) -> nat {
    let q = num / den;
    let r = num % den;
    if 2 * r < den || (2 * r == den && q % 2 == 0) {
        q
    } else {
        q + 1
    }
}

impl Millis {
    /// The nearest whole number of milliseconds.
    pub open spec fn shown(self) -> nat {
        rounded(self.nanos as nat, 1_000_000)
    }

    /// Longer than `ms` milliseconds.
    pub open spec fn over(self, ms: int) -> bool {
        self.nanos > ms * 1_000_000
    }

    /// Shorter than `ms` milliseconds.
    pub open spec fn under(self, ms: int) -> bool {
        self.nanos < ms * 1_000_000
    }

    pub fn is_over(self, ms: u32) -> (r: bool)
        ensures
            r == self.over(ms as int),
    {
        self.nanos > ms as u64 * 1_000_000
    }

    pub fn is_under(self, ms: u32) -> (r: bool)
        ensures
            r == self.under(ms as int),
    {
        self.nanos < ms as u64 * 1_000_000
    }

    /// A duration of whole milliseconds.
    pub fn from_ms(ms: u32) -> (r: Self)
        ensures
            r.nanos == ms * 1_000_000,
    {
        Millis { nanos: ms as u64 * 1_000_000 }
    }

    /// The nearest whole number of milliseconds.
    pub fn to_shown(self) -> (r: u64)
        ensures
            r == self.shown(),
    {
        let q: u64 = self.nanos / 1_000_000;
        let r: u64 = self.nanos % 1_000_000;
        if r < 500_000 || (r == 500_000 && q % 2 == 0) {
            q
        } else {
            q + 1
        }
    }
}

impl Percent {
    /// The nearest whole percentage.
    pub open spec fn shown(self) -> nat {
        if self.whole == 0 {
            0
        } else {
            rounded(self.part as nat * 100, self.whole as nat)
        }
    }

    /// The share is at least `pct` percent.
    pub open spec fn at_least(self, pct: nat) -> bool {
        if self.whole == 0 {
            pct == 0
        } else {
            self.part * 100 >= pct * self.whole
        }
    }

    /// The share is above zero.
    pub open spec fn positive(self) -> bool {
        self.whole > 0 && self.part > 0
    }

    pub fn of(part: u32, whole: u32) -> (r: Self)
        ensures
            r == (Percent { part, whole }),
    {
        Percent { part, whole }
    }

    /// The nearest whole percentage.
    pub fn to_shown(self) -> (r: u64)
        ensures
            r == self.shown(),
    {
        if self.whole == 0 {
            return 0;
        }
        let num: u64 = self.part as u64 * 100;
        let den: u64 = self.whole as u64;
        let q: u64 = num / den;
        let r: u64 = num % den;
        assert(q <= num) by (nonlinear_arith)
            requires
                q == num / den,
                den > 0,
        ;
        if 2 * r < den || (2 * r == den && q % 2 == 0) {
            q
        } else {
            q + 1
        }
    }

    pub fn is_at_least(self, pct: u32) -> (r: bool)
        ensures
            r == self.at_least(pct as nat),
    {
        if self.whole == 0 {
            pct == 0
        } else {
            assert(pct * self.whole <= 0xffff_ffff * 0xffff_ffff) by (nonlinear_arith)
                requires
                    pct <= 0xffff_ffff,
                    self.whole <= 0xffff_ffff,
            ;
            self.part as u64 * 100 >= pct as u64 * self.whole as u64
        }
    }

    pub fn is_positive(self) -> (r: bool)
        ensures
            r == self.positive(),
    {
        self.whole > 0 && self.part > 0
    }
}

/// The shorter of two optional durations; a missing one does not count.
pub open spec fn shorter(a: Option<Millis>, b: Option<Millis>) -> Option<Millis> {
    match (a, b) {
        (Some(x), Some(y)) => Some(if x.nanos <= y.nanos { x } else { y }),
        (Some(x), None) => Some(x),
        (None, y) => y,
    }
}

pub fn shorter_of(a: Option<Millis>, b: Option<Millis>) -> (r: Option<Millis>)
    ensures
        r == shorter(a, b),
{
    match (a, b) {
        (Some(x), Some(y)) => if x.nanos <= y.nanos {
            Some(x)
        } else {
            Some(y)
        },
        (Some(x), None) => Some(x),
        (None, y) => y,
    }
}

/// How an optional duration is shown: whole milliseconds, or a dash.
pub open spec fn ms_text(ms: Option<Millis>) -> Seq<char> {
    match ms {
        Some(m) => text::dec(m.shown()) + "ms"@,
        None => "-"@,
    }
}

/// Shows an optional duration: whole milliseconds, or a dash.
pub fn fmt_ms(ms: Option<Millis>) -> (s: String)
    ensures
        s@ == ms_text(ms),
{
    match ms {
        Some(m) => {
            let mut s = text::dec_text(m.to_shown());
            s.append("ms");
            s
        },
        None => "-".to_owned(),
    }
}

// ── Statistics ──────────────────────────────────────────────────────────

/// The sum of the durations, in nanoseconds.
pub open spec fn total(values: Seq<Millis>) -> nat
    decreases values.len(),
{
    if values.len() == 0 {
        0
    } else {
        total(values.drop_last()) + values.last().nanos as nat
    }
}

/// The sum of the squared distances from `mid`.
pub open spec fn squared_spread(values: Seq<Millis>, mid: int) -> nat
    decreases values.len(),
{
    if values.len() == 0 {
        0
    } else {
        squared_spread(values.drop_last(), mid) + ((values.last().nanos - mid) * (
        values.last().nanos - mid)) as nat
    }
}

/// `m` is the shortest of the durations.
pub open spec fn is_shortest(values: Seq<Millis>, m: Millis) -> bool {
    &&& values.contains(m)
    &&& forall|i: int| 0 <= i < values.len() ==> m.nanos <= (#[trigger] values[i]).nanos
}

/// `m` is the longest of the durations.
pub open spec fn is_longest(values: Seq<Millis>, m: Millis) -> bool {
    &&& values.contains(m)
    &&& forall|i: int| 0 <= i < values.len() ==> (#[trigger] values[i]).nanos <= m.nanos
}

/// `m` is the mean of the durations, in full nanoseconds.
pub open spec fn is_mean(values: Seq<Millis>, m: Millis) -> bool {
    m.nanos * values.len() <= total(values) < (m.nanos + 1) * values.len()
}

/// `d` is the standard deviation around `mid`, in full nanoseconds: the root of
/// the mean squared distance lies in `[d, d + 1)`.
pub open spec fn is_deviation(values: Seq<Millis>, mid: Millis, d: Millis) -> bool {
    &&& (d.nanos * d.nanos) * values.len() <= squared_spread(values, mid.nanos as int)
    &&& squared_spread(values, mid.nanos as int) < ((d.nanos + 1) * (d.nanos + 1)) * values.len()
}

/// The shortest duration.
pub fn shortest(values: &[Millis]) -> (m: Millis)
    requires
        values@.len() > 0,
    ensures
        is_shortest(values@, m),
{
    let mut m: Millis = values[0];
    let mut i: usize = 1;
    while i < values.len()
        invariant
            1 <= i <= values.len(),
            values@.contains(m),
            forall|j: int| 0 <= j < i ==> m.nanos <= (#[trigger] values@[j]).nanos,
        decreases values.len() - i,
    {
        if values[i].nanos < m.nanos {
            m = values[i];
        }
        i = i + 1;
    }
    m
}

/// The longest duration.
pub fn longest(values: &[Millis]) -> (m: Millis)
    requires
        values@.len() > 0,
    ensures
        is_longest(values@, m),
{
    let mut m: Millis = values[0];
    let mut i: usize = 1;
    while i < values.len()
        invariant
            1 <= i <= values.len(),
            values@.contains(m),
            forall|j: int| 0 <= j < i ==> (#[trigger] values@[j]).nanos <= m.nanos,
        decreases values.len() - i,
    {
        if values[i].nanos > m.nanos {
            m = values[i];
        }
        i = i + 1;
    }
    m
}

/// The mean duration, in full nanoseconds.
pub fn mean(values: &[Millis]) -> (m: Millis)
    requires
        values@.len() > 0,
    ensures
        is_mean(values@, m),
{
    let mut sum: u128 = 0;
    let mut i: usize = 0;
    while i < values.len()
        invariant
            i <= values.len(),
            sum == total(values@.take(i as int)),
            sum <= i * 0xffff_ffff_ffff_ffff,
        decreases values.len() - i,
    {
        assert(values@.take(i + 1).drop_last() == values@.take(i as int));
        assert(i * 0xffff_ffff_ffff_ffff + 0xffff_ffff_ffff_ffff <= u128::MAX) by (nonlinear_arith)
            requires
                i < 0xffff_ffff_ffff_ffff,
        ;
        sum = sum + values[i].nanos as u128;
        i = i + 1;
    }
    assert(values@.take(values@.len() as int) == values@);
    let n: u128 = values.len() as u128;
    let q: u128 = sum / n;
    assert(q <= 0xffff_ffff_ffff_ffff && q * n <= sum && sum < (q + 1) * n) by (nonlinear_arith)
        requires
            n > 0,
            q == sum / n,
            sum <= n * 0xffff_ffff_ffff_ffff,
    ;
    Millis { nanos: q as u64 }
}

/// The integer square root: the largest `r` whose square does not exceed `x`.
pub fn square_root(x: u128) -> (r: u64)
    ensures
        r * r <= x,
        x < (r + 1) * (r + 1),
{
    let mut lo: u128 = 0;
    let mut hi: u128 = 0x1_0000_0000_0000_0000;
    assert(0x1_0000_0000_0000_0000int * 0x1_0000_0000_0000_0000int > u128::MAX) by (nonlinear_arith);
    while hi - lo > 1
        invariant
            lo < hi <= 0x1_0000_0000_0000_0000,
            lo * lo <= x,
            x < hi * hi,
        decreases hi - lo,
    {
        let mid: u128 = lo + (hi - lo) / 2;
        assert(mid * mid <= u128::MAX) by (nonlinear_arith)
            requires
                mid < 0x1_0000_0000_0000_0000,
        ;
        if mid * mid <= x {
            lo = mid;
        } else {
            hi = mid;
        }
    }
    lo as u64
}

/// The standard deviation around `mid`, in full nanoseconds.
pub fn deviation(values: &[Millis], mid: Millis) -> (d: Millis)
    requires
        values@.len() > 0,
    ensures
        is_deviation(values@, mid, d),
{
    let n: u128 = values.len() as u128;
    let mut quot: u128 = 0;
    let mut rem: u128 = 0;
    let mut i: usize = 0;
    let ghost big: int = 0xffff_ffff_ffff_ffffint * 0xffff_ffff_ffff_ffffint;
    while i < values.len()
        invariant
            i <= values.len(),
            n == values.len(),
            n > 0,
            big == 0xffff_ffff_ffff_ffffint * 0xffff_ffff_ffff_ffffint,
            rem < n,
            quot * n + rem == squared_spread(values@.take(i as int), mid.nanos as int),
            squared_spread(values@.take(i as int), mid.nanos as int) <= i * big,
        decreases values.len() - i,
    {
        let v: u64 = values[i].nanos;
        let d: u64 = if v >= mid.nanos {
            v - mid.nanos
        } else {
            mid.nanos - v
        };
        assert(values@.take(i + 1).drop_last() == values@.take(i as int));
        let ghost gap: int = v - mid.nanos;
        assert(d * d == gap * gap && 0 <= d * d <= big) by (nonlinear_arith)
            requires
                d == gap || d == -gap,
                0 <= d <= 0xffff_ffff_ffff_ffff,
                big == 0xffff_ffff_ffff_ffffint * 0xffff_ffff_ffff_ffffint,
        ;
        let s: u128 = d as u128 * d as u128;
        let sq: u128 = s / n;
        let sr: u128 = s % n;
        let ghost sum: int = quot * n + rem + s;
        assert(s == sq * n + sr && sr < n) by (nonlinear_arith)
            requires
                n > 0,
                sq == s / n,
                sr == s % n,
        ;
        assert((i + 1) * big == i * big + big) by (nonlinear_arith);
        assert(sum <= n * big) by (nonlinear_arith)
            requires
                sum <= i * big + big,
                i + 1 <= n,
                big >= 0,
        ;
        assert((quot + sq) * n == quot * n + sq * n) by (nonlinear_arith);
        assert(quot + sq <= big) by (nonlinear_arith)
            requires
                (quot + sq) * n <= sum,
                sum <= n * big,
                n > 0,
        ;
        quot = quot + sq;
        rem = rem + sr;
        if rem >= n {
            assert((quot + 1) * n == quot * n + n) by (nonlinear_arith);
            assert(quot + 1 <= big) by (nonlinear_arith)
                requires
                    (quot + 1) * n <= sum,
                    sum <= n * big,
                    n > 0,
            ;
            quot = quot + 1;
            rem = rem - n;
        }
        i = i + 1;
    }
    assert(values@.take(values@.len() as int) == values@);
    let r: u64 = square_root(quot);
    let ghost sum: int = squared_spread(values@, mid.nanos as int) as int;
    assert((r * r) * n <= sum && sum < ((r + 1) * (r + 1)) * n) by (nonlinear_arith)
        requires
            r * r <= quot,
            quot < (r + 1) * (r + 1),
            sum == quot * n + rem,
            0 <= rem < n,
            n > 0,
    ;
    Millis { nanos: r }
}

} // verus!
