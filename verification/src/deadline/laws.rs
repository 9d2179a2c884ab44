//! What deadlines promise.

use crate::clock::Moment;
use crate::deadline;
use crate::deadline::Deadline;
use vstd::prelude::*;

verus! {

/// A deadline passes at the very moment that its time is up, not before; until then what
/// has passed and what is left make up its time.
pub proof fn law_time_is_used_up(d: Deadline, now: Moment)
    ensures
        now.nanos < d.allows() ==> !d.passed(now) && now.nanos + d.left(now) == d.allows(),
        now.nanos >= d.allows() ==> d.passed(now) && d.left(now) == 0,
{
}

/// A time is so many units long, as far as it can be told; a longer one is the longest
/// there is.
pub proof fn law_units_add_up(count: u64, size: u64)
    ensures
        count * size <= u64::MAX ==> deadline::capped(count, size) == count * size,
        count * size > u64::MAX ==> deadline::capped(count, size) == u64::MAX,
{
}

/// The time from one moment to a later one adds up over a moment between them, and no
/// time passes backwards.
pub proof fn law_time_passes(a: Moment, b: Moment, c: Moment)
    requires
        a.nanos <= b.nanos <= c.nanos,
    ensures
        c.since(a) == c.since(b) + b.since(a),
        c.since(a) == c.nanos - a.nanos,
        a.since(c) == 0,
{
}

} // verus!
