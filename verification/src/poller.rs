//! The per-repository poller: the backoff level of one repository, the floor
//! it falls back to, and whether a filesystem watch feeds it.

use crate::schedule::{
    back_off, interval_secs, jitter_bound, jitter_in_range, next_level, schedule, CEILING,
    JITTER_FLOOR_SECS, LEVELS,
};
use vstd::prelude::*;

verus! {

/// Where a repository lives.
#[derive(Clone, Copy, Debug, PartialEq, Eq, Hash, Structural)]
pub enum Backend {
    /// A working tree on the local filesystem.
    Local,
    /// A repository hosted on a remote.
    Github,
}

/// How the attempt to watch a repository's metadata directory ended.
#[derive(Clone, Copy, Debug, PartialEq, Eq, Structural)]
pub enum WatchAttempt {
    /// No attempt was made.
    Skipped,
    /// The repository's record was gone when its path was looked up.
    RecordMissing,
    /// The watch is live.
    Established,
    /// The watch could not be set up.
    Failed,
}

/// What waiting for a filesystem change amounts to.
#[derive(Clone, Copy, Debug, PartialEq, Eq, Structural)]
pub enum ChangeWait {
    /// Wait for the next coalesced change signal.
    NextSignal,
    /// There is no watch: the wait never ends.
    Pending,
}

/// The state of a poller.
pub struct PollerView {
    /// Current level in the backoff schedule.
    pub level: nat,
    /// Level that a reset returns to.
    pub floor: nat,
    /// Whether a live filesystem watch feeds the poller.
    pub watching: bool,
}

impl PollerView {
    /// The level lies in the schedule, at or above the floor.
    pub open spec fn wf(self) -> bool {
        self.floor <= self.level < LEVELS
    }

    /// The state after backing off once.
    pub open spec fn backed_off(self) -> PollerView {
        PollerView { level: next_level(self.level as int) as nat, ..self }
    }

    /// The state after backing off `times` times.
    pub open spec fn backed_off_by(self, times: nat) -> PollerView
        decreases times,
    {
        if times == 0 {
            self
        } else {
            self.backed_off().backed_off_by((times - 1) as nat)
        }
    }

    /// The state after a reset.
    pub open spec fn reset(self) -> PollerView {
        PollerView { level: self.floor, ..self }
    }

    /// The base interval at the current level, in seconds.
    pub open spec fn interval(self) -> int {
        schedule()[self.level as int]
    }
}

/// Whether a repository gets a filesystem watch: only a local one, and only
/// while filesystem events are not switched off.
pub open spec fn watch_wanted(fsevents_disabled: bool, backend: Backend) -> bool {
    !fsevents_disabled && backend == Backend::Local
}

/// The poller that a repository starts with, if it gets one.
///
/// A repository without a watch of its own polls by the timer from the
/// fastest level. One that wants a watch gets no poller if its record has
/// disappeared; otherwise it starts at the ceiling with the ceiling as its
/// floor, with the watch if it is live and without it if it could not be
/// set up.
pub open spec fn started(fsevents_disabled: bool, backend: Backend, attempt: WatchAttempt) -> Option<
    PollerView,
> {
    if !watch_wanted(fsevents_disabled, backend) {
        Some(PollerView { level: 0, floor: 0, watching: false })
    } else if attempt == WatchAttempt::RecordMissing {
        None
    } else {
        Some(
            PollerView {
                level: CEILING as nat,
                floor: CEILING as nat,
                watching: attempt == WatchAttempt::Established,
            },
        )
    }
}

/// Draws a number with `rand::thread_rng` from the distribution
/// `rand::distributions::Uniform::new(low, high)`, which covers the half-open
/// range from `low` up to, but not including, `high`. `Uniform::new` panics
/// unless `low < high`, hence the precondition. The contract places the
/// number in that range and says nothing else about it.
#[verifier::external_body]
fn sample_uniform(low: u64, high: u64) -> (drawn: u64)
    requires
        low < high,
    ensures
        low <= drawn < high,
{
    rand::Rng::sample(&mut rand::thread_rng(), rand::distributions::Uniform::new(low, high))
}

/// The poller of one repository.
pub struct Poller {
    poll_interval_index: usize,
    minimum_interval_index: usize,
    watching: bool,
}

impl View for Poller {
    type V = PollerView;

    closed spec fn view(&self) -> PollerView {
        PollerView {
            level: self.poll_interval_index as nat,
            floor: self.minimum_interval_index as nat,
            watching: self.watching,
        }
    }
}

impl Poller {
    #[verifier::type_invariant]
    spec fn inv(self) -> bool {
        self.minimum_interval_index <= self.poll_interval_index < LEVELS
    }

    /// Whether a repository gets a filesystem watch.
    pub fn wants_watch(fsevents_disabled: bool, backend: Backend) -> (wanted: bool)
        ensures
            wanted == watch_wanted(fsevents_disabled, backend),
    {
        !fsevents_disabled && matches!(backend, Backend::Local)
    }

    /// Starts the poller of a repository. `attempt` says how setting up the
    /// watch went; it is read only if the repository wants one.
    pub fn start(fsevents_disabled: bool, backend: Backend, attempt: WatchAttempt) -> (poller:
        Option<Poller>)
        ensures
            poller.is_some() == started(fsevents_disabled, backend, attempt).is_some(),
            poller matches Some(p) ==> p@ == started(fsevents_disabled, backend, attempt).unwrap()
                && p@.wf(),
    {
        if !Self::wants_watch(fsevents_disabled, backend) {
            return Some(
                Poller { poll_interval_index: 0, minimum_interval_index: 0, watching: false },
            );
        }
        match attempt {
            WatchAttempt::RecordMissing => None,
            WatchAttempt::Established => Some(
                Poller {
                    poll_interval_index: CEILING,
                    minimum_interval_index: CEILING,
                    watching: true,
                },
            ),
            _ => Some(
                Poller {
                    poll_interval_index: CEILING,
                    minimum_interval_index: CEILING,
                    watching: false,
                },
            ),
        }
    }

    /// Backs off by one level, stopping at the ceiling, and returns the new
    /// base interval in seconds.
    pub fn increase_interval(&mut self) -> (secs: u64)
        ensures
            final(self)@ == old(self)@.backed_off(),
            final(self)@.wf(),
            final(self)@.level <= CEILING,
            secs as int == final(self)@.interval(),
    {
        proof {
            use_type_invariant(&*self);
        }
        self.poll_interval_index = back_off(self.poll_interval_index);
        self.interval()
    }

    /// Returns to the floor and returns the new base interval in seconds.
    pub fn reset_interval(&mut self) -> (secs: u64)
        ensures
            final(self)@ == old(self)@.reset(),
            final(self)@.wf(),
            final(self)@.level == old(self)@.floor,
            secs as int == final(self)@.interval(),
    {
        proof {
            use_type_invariant(&*self);
        }
        self.poll_interval_index = self.minimum_interval_index;
        self.interval()
    }

    /// The base interval at the current level, in seconds.
    pub fn interval(&self) -> (secs: u64)
        ensures
            secs as int == self@.interval(),
            60 <= secs <= 1800,
    {
        proof {
            use_type_invariant(self);
        }
        interval_secs(self.poll_interval_index)
    }

    /// The interval to sleep for: the base interval and `jitter` seconds.
    pub fn interval_with(&self, jitter: u64) -> (secs: u64)
        requires
            jitter_in_range(self@.interval(), jitter as int),
        ensures
            secs as int == self@.interval() + jitter,
    {
        self.interval() + jitter
    }

    /// The interval to sleep for: the base interval and a random delay of at
    /// least `JITTER_FLOOR_SECS` and less than thirty seconds plus half the
    /// base interval.
    pub fn jittery_interval(&self) -> (secs: u64)
        ensures
            jitter_in_range(self@.interval(), secs - self@.interval()),
            self@.interval() <= secs < self@.interval() + 30 + self@.interval() / 2,
    {
        let base = self.interval();
        let jitter = sample_uniform(JITTER_FLOOR_SECS, jitter_bound(base));
        self.interval_with(jitter)
    }

    /// What waiting for the next filesystem change amounts to: the next
    /// signal of the watch if there is one, and a wait without end if not.
    pub fn git_change(&self) -> (wait: ChangeWait)
        ensures
            wait == if self@.watching {
                ChangeWait::NextSignal
            } else {
                ChangeWait::Pending
            },
    {
        if self.watching {
            ChangeWait::NextSignal
        } else {
            ChangeWait::Pending
        }
    }

    /// Current level in the backoff schedule.
    pub fn poll_interval_index(&self) -> (level: usize)
        ensures
            level == self@.level,
            self@.wf(),
    {
        proof {
            use_type_invariant(self);
        }
        self.poll_interval_index
    }

    /// Level that a reset returns to.
    pub fn minimum_interval_index(&self) -> (floor: usize)
        ensures
            floor == self@.floor,
            self@.wf(),
    {
        proof {
            use_type_invariant(self);
        }
        self.minimum_interval_index
    }

    /// Whether a live filesystem watch feeds the poller.
    pub fn is_watching(&self) -> (watching: bool)
        ensures
            watching == self@.watching,
    {
        self.watching
    }
}

/// Backing off any number of times keeps a poller well formed, leaves its
/// floor and its watch alone, and moves its level up by that many steps or
/// to the ceiling, whichever comes first: the level never passes the last
/// entry of the schedule.
pub proof fn lemma_backing_off_is_capped(poller: PollerView, times: nat)
    requires
        poller.wf(),
    ensures
        poller.backed_off_by(times).wf(),
        poller.backed_off_by(times).floor == poller.floor,
        poller.backed_off_by(times).watching == poller.watching,
        poller.backed_off_by(times).level == if poller.level + times < LEVELS {
            poller.level + times
        } else {
            CEILING as nat
        },
        poller.backed_off_by(times).level <= CEILING,
    decreases times,
{
    if times > 0 {
        lemma_backing_off_is_capped(poller.backed_off(), (times - 1) as nat);
    }
}

/// A reset returns to the floor that the poller started with, however often
/// it has backed off in between.
pub proof fn lemma_reset_returns_to_floor(poller: PollerView, times: nat)
    requires
        poller.wf(),
    ensures
        poller.backed_off_by(times).reset().level == poller.floor,
        poller.backed_off_by(times).reset().wf(),
        poller.backed_off_by(times).reset() == poller.reset(),
{
    lemma_backing_off_is_capped(poller, times);
}

/// A poller without a live watch is one whose wait for a change is pending
/// for ever; a repository that wants no watch, or whose watch could not be
/// set up, gets such a poller.
pub proof fn lemma_no_watch_no_signal(
    fsevents_disabled: bool,
    backend: Backend,
    attempt: WatchAttempt,
)
    requires
        !watch_wanted(fsevents_disabled, backend) || attempt != WatchAttempt::Established,
    ensures
        started(fsevents_disabled, backend, attempt) matches Some(p) ==> !p.watching,
{
}

/// The jittered interval is never shorter than the base interval plus the
/// smallest jitter, and always shorter than the base interval plus thirty
/// seconds plus half the base interval.
pub proof fn lemma_jitter_bounds(base_secs: int, jitter: int)
    requires
        jitter_in_range(base_secs, jitter),
    ensures
        base_secs + JITTER_FLOOR_SECS <= base_secs + jitter < base_secs + 30 + base_secs / 2,
        base_secs <= base_secs + jitter,
{
}

} // verus!
