//! Which stored reports have outlived the retention time.

use vstd::prelude::*;

verus! {

/// A moment of the wall clock: nanoseconds since the Unix epoch, negative before it.
#[derive(Debug, Clone, Copy, PartialEq, Eq, Structural)]
pub struct Timestamp {
    pub nanos: i128,
}

/// The nanoseconds of a day.
pub const DAY_NANOS: i128 = 86_400_000_000_000;

/// The file is older than the retention time. One from the future is not old.
pub open spec fn outlived(modified: Timestamp, now: Timestamp, retention_days: u32) -> bool {
    now.nanos - modified.nanos > retention_days * DAY_NANOS
}

/// Whether a file that was last modified at `modified` is to be deleted.
pub fn should_prune(modified: Timestamp, now: Timestamp, retention_days: u32) -> (r: bool)
    ensures
        r == outlived(modified, now, retention_days),
{
    let max_age: i128 = retention_days as i128 * DAY_NANOS;
    if now.nanos < modified.nanos {
        return false;
    }
    if modified.nanos >= 0 || now.nanos < 0 {
        now.nanos - modified.nanos > max_age
    } else {
        // The epoch lies between the two.
        let before: i128 = -(modified.nanos + 1);
        if before >= max_age {
            true
        } else {
            now.nanos > max_age - before - 1
        }
    }
}

/// The names of the files that are to be deleted, in the order of the list.
pub open spec fn stale(entries: Seq<(&str, Timestamp)>, now: Timestamp, retention_days: u32) -> Seq<
    Seq<char>,
>
    decreases entries.len(),
{
    if entries.len() == 0 {
        Seq::empty()
    } else {
        let rest = stale(entries.drop_last(), now, retention_days);
        if outlived(entries.last().1, now, retention_days) {
            rest.push(entries.last().0@)
        } else {
            rest
        }
    }
}

pub open spec fn names(list: Seq<&str>) -> Seq<Seq<char>> {
    Seq::new(list.len(), |i: int| list[i]@)
}

/// Picks the files that are to be deleted.
pub fn files_to_prune<'a>(
    entries: &[(&'a str, Timestamp)],
    now: Timestamp,
    retention_days: u32,
) -> (list: Vec<&'a str>)
    ensures
        names(list@) == stale(entries@, now, retention_days),
{
    let mut list: Vec<&'a str> = Vec::new();
    let mut i: usize = 0;
    while i < entries.len()
        invariant
            i <= entries.len(),
            names(list@) == stale(entries@.take(i as int), now, retention_days),
        decreases entries.len() - i,
    {
        assert(entries@.take(i + 1).drop_last() == entries@.take(i as int));
        let (name, modified) = entries[i];
        if should_prune(modified, now, retention_days) {
            let ghost before = names(list@);
            list.push(name);
            assert(names(list@) == before.push(name@));
        }
        i = i + 1;
    }
    assert(entries@.take(entries@.len() as int) == entries@);
    list
}

/// A file that was modified after `now` is never deleted, and a file that is kept
/// now was kept at any earlier time.
pub proof fn law_files_only_grow_older(
    modified: Timestamp,
    now: Timestamp,
    later: Timestamp,
    retention_days: u32,
)
    requires
        now.nanos <= later.nanos,
    ensures
        modified.nanos >= now.nanos ==> !outlived(modified, now, retention_days),
        outlived(modified, now, retention_days) ==> outlived(modified, later, retention_days),
{
    assert(0 <= retention_days * DAY_NANOS) by (nonlinear_arith)
        requires
            0 <= retention_days,
            DAY_NANOS == 86_400_000_000_000,
    ;
}

} // verus!
