//! Freshness of the cached tail block, by its file's modified time.

use vstd::prelude::*;

verus! {

/// How long a cached tail stays fresh, in seconds.
pub const SECONDS_IN_DAY: u64 = 60 * 60 * 24;

/// Whether a time stamp `last` is too old at `current`: the clock is unset
/// (`current == 0`), `last` lies in the future, or more than `limit`
/// seconds have passed.
pub open spec fn exceeded_spec(last: u64, current: u64, limit: u64) -> bool {
    current == 0 || last > current || current - last > limit
}

/// Whether a time stamp `last` is too old at `current`, by `limit` seconds.
pub fn exceeded(last: u64, current: u64, limit: u64) -> (r: bool)
    ensures
        r == exceeded_spec(last, current, limit),
{
    current == 0 || last > current || current - last > limit
}

/// Whether a tail cached at `modified` (if that time could be read) may be
/// served at `now` without fetching it again.
pub open spec fn tail_is_fresh(modified: Option<u64>, now: u64) -> bool {
    match modified {
        Some(m) => !exceeded_spec(m, now, SECONDS_IN_DAY),
        None => false,
    }
}

/// Whether a tail cached at `modified` (if that time could be read) may be
/// served at `now` without fetching it again.
pub fn cached_tail_is_fresh(modified: Option<u64>, now: u64) -> (r: bool)
    ensures
        r == tail_is_fresh(modified, now),
{
    match modified {
        Some(m) => !exceeded(m, now, SECONDS_IN_DAY),
        None => false,
    }
}

/// A tail written 23 hours ago is served from the cache; one written 25
/// hours ago, one written in the future, and one whose time cannot be read
/// are fetched again.
pub proof fn lemma_tail_freshness(now: u64, future: u64)
    requires
        now >= 25 * 60 * 60,
        future > now,
    ensures
        tail_is_fresh(Some((now - 23 * 60 * 60) as u64), now),
        !tail_is_fresh(Some((now - 25 * 60 * 60) as u64), now),
        !tail_is_fresh(Some(future), now),
        !tail_is_fresh(None, now),
{
}

} // verus!
