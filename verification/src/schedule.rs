//! The backoff schedule: a fixed ascending table of polling intervals, and
//! the bounds of the random delay added on top of an interval.

use vstd::prelude::*;

verus! {

/// Number of levels in the backoff schedule.
pub const LEVELS: usize = 5;

/// Index of the slowest level of the schedule.
pub const CEILING: usize = 4;

/// Smallest jitter, in seconds, ever added to an interval.
pub const JITTER_FLOOR_SECS: u64 = 10;

/// Fixed part, in seconds, of the exclusive upper bound of the jitter.
pub const JITTER_SPREAD_SECS: u64 = 30;

/// The schedule itself, in seconds: one, three, ten, twenty and thirty minutes.
pub open spec fn schedule() -> Seq<int> {
    seq![60, 180, 600, 1200, 1800]
}

/// The level reached by backing off once from `level`: one step slower,
/// but never past the ceiling.
pub open spec fn next_level(level: int) -> int {
    if level + 1 < LEVELS as int {
        level + 1
    } else {
        CEILING as int
    }
}

/// Exclusive upper bound of the jitter that goes with a base interval.
pub open spec fn jitter_limit(base_secs: int) -> int {
    JITTER_SPREAD_SECS as int + base_secs / 2
}

/// Whether `jitter` is a delay that may be added to `base_secs`.
pub open spec fn jitter_in_range(base_secs: int, jitter: int) -> bool {
    JITTER_FLOOR_SECS as int <= jitter < jitter_limit(base_secs)
}

/// The polling interval of a level, in seconds.
pub fn interval_secs(level: usize) -> (secs: u64)
    requires
        level < LEVELS,
    ensures
        secs as int == schedule()[level as int],
{
    if level == 0 {
        60
    } else if level == 1 {
        180
    } else if level == 2 {
        600
    } else if level == 3 {
        1200
    } else {
        1800
    }
}

/// Backs off by one level, stopping at the ceiling.
pub fn back_off(level: usize) -> (next: usize)
    requires
        level < LEVELS,
    ensures
        next as int == next_level(level as int),
        next < LEVELS,
{
    if level + 1 < LEVELS {
        level + 1
    } else {
        CEILING
    }
}

/// Exclusive upper bound, in seconds, of the jitter for a base interval.
pub fn jitter_bound(base_secs: u64) -> (bound: u64)
    ensures
        bound as int == jitter_limit(base_secs as int),
        bound > JITTER_FLOOR_SECS,
{
    JITTER_SPREAD_SECS + base_secs / 2
}

/// The schedule has `LEVELS` entries, every one of them positive, and each
/// entry is longer than the one before it.
pub proof fn lemma_schedule_ascending()
    ensures
        schedule().len() == LEVELS,
        forall|i: int| 0 <= i < LEVELS ==> 0 < #[trigger] schedule()[i],
        forall|i: int, j: int| 0 <= i < j < LEVELS ==> #[trigger] schedule()[i] < #[trigger] schedule()[j],
{
}

/// Backing off never leaves the schedule, and never picks a faster level.
pub proof fn lemma_next_level_bounded(level: int)
    requires
        0 <= level < LEVELS,
    ensures
        level <= next_level(level) <= CEILING,
        next_level(level) == level <==> level == CEILING,
{
}

} // verus!
