//! The rate limit of the share server: at most so many uploads per address within a
//! sliding window of time.

use crate::addr::IpAddr;
use crate::clock::{Clock, Moment};
use crate::measure::Millis;
use std::collections::HashMap;
use vstd::prelude::*;

verus! {

/// The moments of `history` that lie within the window that ends now.
pub open spec fn recent(history: Seq<Moment>, now: Moment, window: Millis) -> Seq<Moment>
    decreases history.len(),
{
    if history.len() == 0 {
        Seq::empty()
    } else {
        let rest = recent(history.drop_last(), now, window);
        if now.since(history.last()) <= window.nanos {
            rest.push(history.last())
        } else {
            rest
        }
    }
}

/// Drops the moments that have left the window, and says whether one more request
/// is allowed.
pub fn check(history: &mut Vec<Moment>, now: Moment, limit: u32, window: Millis) -> (allowed: bool)
    ensures
        final(history)@ == recent(old(history)@, now, window),
        allowed == (recent(old(history)@, now, window).len() < limit),
{
    let ghost before = history@;
    let mut kept: Vec<Moment> = Vec::new();
    let mut i: usize = 0;
    while i < history.len()
        invariant
            history@ == before,
            i <= history@.len(),
            kept@ == recent(history@.take(i as int), now, window),
            kept@.len() <= i,
        decreases history@.len() - i,
    {
        assert(history@.take(i + 1).drop_last() == history@.take(i as int));
        let t = history[i];
        if now.nanos_after(t) <= window.nanos {
            kept.push(t);
        }
        i = i + 1;
    }
    assert(history@.take(history@.len() as int) == history@);
    *history = kept;
    (history.len() as u64) < limit as u64
}

/// The number of an IPv4 address.
#[verifier::opaque]
pub open spec fn key4(a: u8, b: u8, c: u8, d: u8) -> u32 {
    (((a * 256 + b) * 256 + c) * 256 + d) as u32
}

/// The number of an IPv6 address.
#[verifier::opaque]
pub open spec fn key6(
    a: u16,
    b: u16,
    c: u16,
    d: u16,
    e: u16,
    f: u16,
    g: u16,
    h: u16,
) -> u128 {
    (((((((a * 65536 + b) * 65536 + c) * 65536 + d) * 65536 + e) * 65536 + f) * 65536 + g) * 65536
        + h) as u128
}

fn number4(a: u8, b: u8, c: u8, d: u8) -> (n: u32)
    ensures
        n == key4(a, b, c, d),
{
    reveal(key4);
    ((a as u32 * 256 + b as u32) * 256 + c as u32) * 256 + d as u32
}

fn number6(a: u16, b: u16, c: u16, d: u16, e: u16, f: u16, g: u16, h: u16) -> (n: u128)
    ensures
        n == key6(a, b, c, d, e, f, g, h),
{
    reveal(key6);
    ((((((a as u128 * 65536 + b as u128) * 65536 + c as u128) * 65536 + d as u128) * 65536
        + e as u128) * 65536 + f as u128) * 65536 + g as u128) * 65536 + h as u128
}

/// Different IPv4 addresses have different numbers.
proof fn lemma_key4(a: u8, b: u8, c: u8, d: u8, p: u8, q: u8, r: u8, s: u8)
    requires
        key4(a, b, c, d) == key4(p, q, r, s),
    ensures
        a == p && b == q && c == r && d == s,
{
    reveal(key4);
}

/// A number to the base 65536 has one last digit.
proof fn lemma_last_digit(x: int, y: int, u: u16, v: u16)
    requires
        x * 65536 + u == y * 65536 + v,
    ensures
        x == y,
        u == v,
{
}

/// Different IPv6 addresses have different numbers.
proof fn lemma_key6(x: Seq<u16>, y: Seq<u16>)
    requires
        x.len() == 8,
        y.len() == 8,
        key6(x[0], x[1], x[2], x[3], x[4], x[5], x[6], x[7]) == key6(
            y[0],
            y[1],
            y[2],
            y[3],
            y[4],
            y[5],
            y[6],
            y[7],
        ),
    ensures
        x == y,
{
    reveal(key6);
    let x1 = x[0] * 65536 + x[1];
    let x2 = x1 * 65536 + x[2];
    let x3 = x2 * 65536 + x[3];
    let x4 = x3 * 65536 + x[4];
    let x5 = x4 * 65536 + x[5];
    let x6 = x5 * 65536 + x[6];
    let y1 = y[0] * 65536 + y[1];
    let y2 = y1 * 65536 + y[2];
    let y3 = y2 * 65536 + y[3];
    let y4 = y3 * 65536 + y[4];
    let y5 = y4 * 65536 + y[5];
    let y6 = y5 * 65536 + y[6];
    lemma_last_digit(x6, y6, x[7], y[7]);
    lemma_last_digit(x5, y5, x[6], y[6]);
    lemma_last_digit(x4, y4, x[5], y[5]);
    lemma_last_digit(x3, y3, x[4], y[4]);
    lemma_last_digit(x2, y2, x[3], y[3]);
    lemma_last_digit(x1, y1, x[2], y[2]);
    lemma_last_digit(x[0] as int, y[0] as int, x[1], y[1]);
    assert(x =~= y);
}

/// Decides on a request, given what is remembered of the address, and gives what is
/// remembered afterwards.
fn decide(known: Option<Vec<Moment>>, now: Moment, limit: u32, window: Millis) -> (r: (
    bool,
    Vec<Moment>,
))
    ensures
        ({
            let history = match known {
                Some(list) => list@,
                None => Seq::empty(),
            };
            &&& r.0 == (recent(history, now, window).len() < limit)
            &&& r.1@ == after_request(history, now, limit, window)
        }),
{
    let mut list = match known {
        Some(list) => list,
        None => Vec::new(),
    };
    let allowed = check(&mut list, now, limit, window);
    if allowed {
        list.push(now);
    }
    (allowed, list)
}

/// A limiter: at most `limit` requests per address within a window that slides with
/// the time.
pub struct SlidingWindowLimiter {
    clock: Clock,
    window: Millis,
    limit: u32,
    v4: HashMap<u32, Vec<Moment>>,
    v6: HashMap<u128, Vec<Moment>>,
}

impl SlidingWindowLimiter {
    pub closed spec fn limit(self) -> u32 {
        self.limit
    }

    pub closed spec fn window(self) -> Millis {
        self.window
    }

    /// When the requests of an address were allowed, as far as it is remembered.
    pub closed spec fn history(self, ip: IpAddr) -> Seq<Moment> {
        match ip {
            IpAddr::V4(a, b, c, d) => if self.v4@.contains_key(key4(a, b, c, d)) {
                self.v4@[key4(a, b, c, d)]@
            } else {
                Seq::empty()
            },
            IpAddr::V6(a, b, c, d, e, f, g, h) => if self.v6@.contains_key(
                key6(a, b, c, d, e, f, g, h),
            ) {
                self.v6@[key6(a, b, c, d, e, f, g, h)]@
            } else {
                Seq::empty()
            },
        }
    }

    /// A limiter that has seen no request.
    pub fn new(limit: u32, window: Millis) -> (l: Self)
        ensures
            l.limit() == limit,
            l.window() == window,
            forall|ip: IpAddr| (#[trigger] l.history(ip)).len() == 0,
    {
        SlidingWindowLimiter {
            clock: Clock::start(),
            window,
            limit,
            v4: HashMap::new(),
            v6: HashMap::new(),
        }
    }

    /// Decides on a request at the time `now`, and remembers it if it is allowed.
    pub fn allow_at(&mut self, ip: IpAddr, now: Moment) -> (allowed: bool)
        ensures
            allowed == (recent(old(self).history(ip), now, old(self).window()).len()
                < old(self).limit()),
            final(self).history(ip) == after_request(
                old(self).history(ip),
                now,
                old(self).limit(),
                old(self).window(),
            ),
            forall|other: IpAddr|
                other != ip ==> #[trigger] final(self).history(other) == old(self).history(other),
            final(self).limit() == old(self).limit(),
            final(self).window() == old(self).window(),
    {
        broadcast use vstd::std_specs::hash::group_hash_axioms;

        let ghost before = *self;
        match ip {
            IpAddr::V4(a, b, c, d) => {
                let key: u32 = number4(a, b, c, d);
                let known = self.v4.remove(&key);
                let (allowed, list) = decide(known, now, self.limit, self.window);
                self.v4.insert(key, list);
                assert forall|other: IpAddr| other != ip implies #[trigger] self.history(other)
                    == before.history(other) by {
                    if let IpAddr::V4(p, q, r, s) = other {
                        if key4(a, b, c, d) == key4(p, q, r, s) {
                            lemma_key4(a, b, c, d, p, q, r, s);
                        }
                    }
                }
                allowed
            },
            IpAddr::V6(a, b, c, d, e, f, g, h) => {
                let key: u128 = number6(a, b, c, d, e, f, g, h);
                let known = self.v6.remove(&key);
                let (allowed, list) = decide(known, now, self.limit, self.window);
                self.v6.insert(key, list);
                assert forall|other: IpAddr| other != ip implies #[trigger] self.history(other)
                    == before.history(other) by {
                    if let IpAddr::V6(p, q, r, s, t, u, v, w) = other {
                        if key6(a, b, c, d, e, f, g, h) == key6(p, q, r, s, t, u, v, w) {
                            let x = seq![a, b, c, d, e, f, g, h];
                            let y = seq![p, q, r, s, t, u, v, w];
                            lemma_key6(x, y);
                            assert(x[0] == y[0] && x[1] == y[1] && x[2] == y[2] && x[3] == y[3]
                                && x[4] == y[4] && x[5] == y[5] && x[6] == y[6] && x[7] == y[7]);
                        }
                    }
                }
                allowed
            },
        }
    }

    /// Decides on a request now, and remembers it if it is allowed. Which moment the
    /// clock shows decides which earlier requests still count; an address without
    /// earlier requests is allowed unless the limit is zero.
    pub fn allow(&mut self, ip: IpAddr) -> (allowed: bool)
        ensures
            exists|now: Moment|
                allowed == (#[trigger] recent(old(self).history(ip), now, old(self).window()).len()
                    < old(self).limit()) && final(self).history(ip) == after_request(
                    old(self).history(ip),
                    now,
                    old(self).limit(),
                    old(self).window(),
                ),
            old(self).history(ip).len() < old(self).limit() ==> allowed,
            old(self).limit() == 0 ==> !allowed,
            forall|other: IpAddr|
                other != ip ==> #[trigger] final(self).history(other) == old(self).history(other),
            final(self).limit() == old(self).limit(),
            final(self).window() == old(self).window(),
    {
        let now = self.clock.now();
        proof {
            lemma_recent_len(self.history(ip), now, self.window());
        }
        self.allow_at(ip, now)
    }
}

/// What is remembered of an address after a request.
pub open spec fn after_request(
    history: Seq<Moment>,
    now: Moment,
    limit: u32,
    window: Millis,
) -> Seq<Moment> {
    let kept = recent(history, now, window);
    if kept.len() < limit {
        kept.push(now)
    } else {
        kept
    }
}

proof fn lemma_recent_len(history: Seq<Moment>, now: Moment, window: Millis)
    ensures
        recent(history, now, window).len() <= history.len(),
    decreases history.len(),
{
    if history.len() > 0 {
        lemma_recent_len(history.drop_last(), now, window);
    }
}

// ── What holds of every sequence of requests ────────────────────────────

/// The requests of one address that are allowed, given when all of them are made:
/// each one is, unless the window that ends with it already holds as many allowed
/// requests as the limit.
pub open spec fn allowed_of(times: Seq<Moment>, limit: u32, window: Millis) -> Seq<Moment>
    decreases times.len(),
{
    if times.len() == 0 {
        Seq::empty()
    } else {
        let earlier = allowed_of(times.drop_last(), limit, window);
        if recent(earlier, times.last(), window).len() < limit {
            earlier.push(times.last())
        } else {
            earlier
        }
    }
}

/// What the limiter remembers after these requests of one address.
pub open spec fn remembered(times: Seq<Moment>, limit: u32, window: Millis) -> Seq<Moment>
    decreases times.len(),
{
    if times.len() == 0 {
        Seq::empty()
    } else {
        after_request(
            remembered(times.drop_last(), limit, window),
            times.last(),
            limit,
            window,
        )
    }
}

/// The times never run backwards.
pub open spec fn in_order(times: Seq<Moment>) -> bool {
    forall|i: int, j: int|
        0 <= i <= j < times.len() ==> (#[trigger] times[i]).nanos <= (#[trigger] times[j]).nanos
}

proof fn lemma_recent_twice(history: Seq<Moment>, t: Moment, u: Moment, window: Millis)
    requires
        t.nanos <= u.nanos,
    ensures
        recent(recent(history, t, window), u, window) == recent(history, u, window),
    decreases history.len(),
{
    if history.len() > 0 {
        let front = history.drop_last();
        lemma_recent_twice(front, t, u, window);
        let kept = recent(front, t, window);
        if t.since(history.last()) <= window.nanos {
            assert(kept.push(history.last()).drop_last() == kept);
        }
    }
}

proof fn lemma_remembered(times: Seq<Moment>, limit: u32, window: Millis)
    requires
        in_order(times),
        times.len() > 0,
    ensures
        remembered(times, limit, window) == recent(
            allowed_of(times, limit, window),
            times.last(),
            window,
        ),
        remembered(times, limit, window).len() <= limit,
    decreases times.len(),
{
    let front = times.drop_last();
    let now = times.last();
    let earlier = allowed_of(front, limit, window);
    let state = remembered(front, limit, window);
    if front.len() > 0 {
        lemma_remembered(front, limit, window);
        assert(front.last() == times[times.len() - 2]);
        lemma_recent_twice(earlier, front.last(), now, window);
    }
    lemma_recent_len(state, now, window);
    assert(recent(state, now, window) == recent(earlier, now, window));
    if recent(earlier, now, window).len() < limit {
        assert(earlier.push(now).drop_last() == earlier);
    }
}

/// At most `limit` requests of an address are allowed within any window that ends
/// with one of its requests, however the requests are spread.
pub proof fn law_window_never_holds_more_than_the_limit(
    times: Seq<Moment>,
    limit: u32,
    window: Millis,
)
    requires
        in_order(times),
        times.len() > 0,
    ensures
        recent(allowed_of(times, limit, window), times.last(), window).len() <= limit,
{
    lemma_remembered(times, limit, window);
}

/// Forgetting the moments that have left the window changes no decision: the limiter
/// allows a request exactly where all allowed requests within the window are fewer
/// than the limit.
pub proof fn law_forgetting_changes_no_decision(
    times: Seq<Moment>,
    now: Moment,
    limit: u32,
    window: Millis,
)
    requires
        in_order(times),
        times.len() > 0 ==> times.last().nanos <= now.nanos,
    ensures
        recent(remembered(times, limit, window), now, window) == recent(
            allowed_of(times, limit, window),
            now,
            window,
        ),
{
    if times.len() > 0 {
        lemma_remembered(times, limit, window);
        lemma_recent_twice(allowed_of(times, limit, window), times.last(), now, window);
    }
}

} // verus!
