//! The monitor loop of one repository.
//!
//! A loop reads the repository's status, has it synced, reads the status
//! again, adjusts the backoff of its poller to what it saw, and waits for
//! the timer or a filesystem change before it starts over. It ends when the
//! repository is no longer indexable, when its record is gone, or when a
//! sync fails.

use crate::poller::{Poller, PollerView};
use vstd::prelude::*;

verus! {

/// The state of a repository's index.
#[derive(Clone, Copy, Debug, PartialEq, Eq, Structural)]
pub enum SyncStatus {
    /// The last sync or indexing run failed.
    Error,
    /// The repository is known but not managed yet.
    Uninitialized,
    /// The user removed the repository.
    Removed,
    /// A sync has been asked for.
    Queued,
    /// The repository is being synced with its source.
    Syncing,
    /// The repository is being indexed.
    Indexing,
    /// The repository is gone from its remote.
    RemoteRemoved,
    /// The index is up to date.
    Done,
}

impl SyncStatus {
    /// Whether it makes sense to go on monitoring a repository in this
    /// state: its index is up to date, waits to be brought up to date, or
    /// failed and may be tried again.
    pub open spec fn is_indexable(self) -> bool {
        self == SyncStatus::Done || self == SyncStatus::Queued || self == SyncStatus::Error
    }

    /// Whether it makes sense to go on monitoring a repository in this state.
    pub fn indexable(&self) -> (yes: bool)
        ensures
            yes == self.is_indexable(),
    {
        matches!(self, SyncStatus::Done | SyncStatus::Queued | SyncStatus::Error)
    }
}

/// What a look at a repository's record shows.
#[derive(Clone, Copy, Debug, PartialEq, Eq, Structural)]
pub struct Snapshot {
    /// Unix time of the last commit that was synced.
    pub last_commit_unix_secs: u64,
    /// State of the index.
    pub status: SyncStatus,
}

/// Why a monitor loop ended.
#[derive(Clone, Copy, Debug, PartialEq, Eq, Structural)]
pub enum ExitReason {
    /// The repository's record is gone.
    RecordMissing,
    /// The repository is not indexable.
    NotIndexable,
    /// The sync failed.
    SyncFailed,
}

/// What the caller reports to the loop.
#[derive(Clone, Copy, Debug, PartialEq, Eq, Structural)]
pub enum MonitorEvent {
    /// The record was read; `None` if there is none.
    Observed(Option<Snapshot>),
    /// The sync ended, well or not.
    Synced(bool),
    /// The timer ran out.
    TimerElapsed,
    /// The filesystem watch signalled a change.
    ChangeDetected,
}

/// What the loop asks the caller to do next.
#[derive(Clone, Copy, Debug, PartialEq, Eq, Structural)]
pub enum MonitorAction {
    /// Read the repository's record, then report [`MonitorEvent::Observed`].
    Observe,
    /// Have the repository synced and wait for that to end, then report
    /// [`MonitorEvent::Synced`].
    Sync,
    /// Sleep for the poller's jittered interval or until the poller's wait
    /// for a change ends, whichever comes first, then report which it was.
    Wait,
    /// The loop is over.
    Exit(ExitReason),
    /// The event does not belong to the current phase and changed nothing.
    Ignore,
}

/// What a loop does to its poller after a sync.
#[derive(Clone, Copy, Debug, PartialEq, Eq, Structural)]
pub enum Adjustment {
    /// Nothing changed: poll less often.
    BackOff,
    /// Something changed: poll as often as the floor allows.
    Reset,
}

/// Where a loop stands.
#[derive(Clone, Copy, Debug, PartialEq, Eq, Structural)]
pub enum MonitorPhase {
    /// About to read the status before a sync.
    Idle,
    /// The sync is running; `before` is what was read ahead of it.
    Syncing { before: Snapshot },
    /// The sync is over and the status is read again.
    Evaluating { before: Snapshot },
    /// Waiting for the timer or a change.
    Waiting,
    /// The loop is over.
    Exited,
}

/// The state of a loop.
pub struct MonitorView {
    pub phase: MonitorPhase,
    pub poller: PollerView,
}

/// The adjustment that follows a sync: back off if what is read after the
/// sync is what was read before it, last commit and status alike, and the
/// index is up to date; reset otherwise.
pub open spec fn adjustment_for(before: Snapshot, after: Snapshot) -> Adjustment {
    if before == after && after.status == SyncStatus::Done {
        Adjustment::BackOff
    } else {
        Adjustment::Reset
    }
}

/// A poller after an adjustment.
pub open spec fn adjusted(poller: PollerView, adjustment: Adjustment) -> PollerView {
    match adjustment {
        Adjustment::BackOff => poller.backed_off(),
        Adjustment::Reset => poller.reset(),
    }
}

/// Why a look at the record ends the loop, if it does.
pub open spec fn exit_on(observed: Option<Snapshot>) -> Option<ExitReason> {
    match observed {
        None => Some(ExitReason::RecordMissing),
        Some(seen) => if seen.status.is_indexable() {
            None
        } else {
            Some(ExitReason::NotIndexable)
        },
    }
}

/// The loop's transition function: the state after `event` and the action it
/// calls for.
pub open spec fn react(state: MonitorView, event: MonitorEvent) -> (MonitorView, MonitorAction) {
    match (state.phase, event) {
        (MonitorPhase::Idle, MonitorEvent::Observed(observed)) => match exit_on(observed) {
            Some(reason) => (
                MonitorView { phase: MonitorPhase::Exited, ..state },
                MonitorAction::Exit(reason),
            ),
            None => (
                MonitorView { phase: MonitorPhase::Syncing { before: observed.unwrap() }, ..state },
                MonitorAction::Sync,
            ),
        },
        (MonitorPhase::Syncing { before }, MonitorEvent::Synced(done)) => if done {
            (MonitorView { phase: MonitorPhase::Evaluating { before }, ..state }, MonitorAction::Observe)
        } else {
            (
                MonitorView { phase: MonitorPhase::Exited, ..state },
                MonitorAction::Exit(ExitReason::SyncFailed),
            )
        },
        (MonitorPhase::Evaluating { before }, MonitorEvent::Observed(observed)) => match exit_on(
            observed,
        ) {
            Some(reason) => (
                MonitorView { phase: MonitorPhase::Exited, ..state },
                MonitorAction::Exit(reason),
            ),
            None => (
                MonitorView {
                    phase: MonitorPhase::Waiting,
                    poller: adjusted(state.poller, adjustment_for(before, observed.unwrap())),
                },
                MonitorAction::Wait,
            ),
        },
        (MonitorPhase::Waiting, MonitorEvent::TimerElapsed) => (
            MonitorView { phase: MonitorPhase::Idle, ..state },
            MonitorAction::Observe,
        ),
        (MonitorPhase::Waiting, MonitorEvent::ChangeDetected) => if state.poller.watching {
            (MonitorView { phase: MonitorPhase::Idle, ..state }, MonitorAction::Observe)
        } else {
            (state, MonitorAction::Ignore)
        },
        _ => (state, MonitorAction::Ignore),
    }
}

/// Decides how a loop adjusts its poller after a sync.
pub fn adjustment(before: &Snapshot, after: &Snapshot) -> (choice: Adjustment)
    ensures
        choice == adjustment_for(*before, *after),
{
    if *before == *after && matches!(after.status, SyncStatus::Done) {
        Adjustment::BackOff
    } else {
        Adjustment::Reset
    }
}

/// Decides whether a look at the record ends the loop, and why.
pub fn exit_reason(observed: &Option<Snapshot>) -> (reason: Option<ExitReason>)
    ensures
        reason == exit_on(*observed),
{
    match observed {
        None => Some(ExitReason::RecordMissing),
        Some(seen) => {
            if seen.status.indexable() {
                None
            } else {
                Some(ExitReason::NotIndexable)
            }
        },
    }
}

/// The monitor loop of one repository, with the poller it owns.
pub struct Monitor {
    phase: MonitorPhase,
    poller: Poller,
}

impl View for Monitor {
    type V = MonitorView;

    closed spec fn view(&self) -> MonitorView {
        MonitorView { phase: self.phase, poller: self.poller@ }
    }
}

impl Monitor {
    /// A loop about to read the status for the first time.
    pub fn new(poller: Poller) -> (monitor: Monitor)
        ensures
            monitor@ == (MonitorView { phase: MonitorPhase::Idle, poller: poller@ }),
    {
        Monitor { phase: MonitorPhase::Idle, poller }
    }

    /// Where the loop stands.
    pub fn phase(&self) -> (phase: MonitorPhase)
        ensures
            phase == self@.phase,
    {
        self.phase
    }

    /// The loop's poller.
    pub fn poller(&self) -> (poller: &Poller)
        ensures
            poller@ == self@.poller,
    {
        &self.poller
    }

    /// Whether the loop is over.
    pub fn has_exited(&self) -> (over: bool)
        ensures
            over == (self@.phase is Exited),
    {
        matches!(self.phase, MonitorPhase::Exited)
    }

    /// Takes `event` and returns the action to perform.
    pub fn step(&mut self, event: MonitorEvent) -> (action: MonitorAction)
        ensures
            (final(self)@, action) == react(old(self)@, event),
    {
        match (self.phase, event) {
            (MonitorPhase::Idle, MonitorEvent::Observed(observed)) => {
                match exit_reason(&observed) {
                    Some(reason) => {
                        self.phase = MonitorPhase::Exited;
                        MonitorAction::Exit(reason)
                    },
                    None => {
                        self.phase = MonitorPhase::Syncing { before: observed.unwrap() };
                        MonitorAction::Sync
                    },
                }
            },
            (MonitorPhase::Syncing { before }, MonitorEvent::Synced(done)) => {
                if done {
                    self.phase = MonitorPhase::Evaluating { before };
                    MonitorAction::Observe
                } else {
                    self.phase = MonitorPhase::Exited;
                    MonitorAction::Exit(ExitReason::SyncFailed)
                }
            },
            (MonitorPhase::Evaluating { before }, MonitorEvent::Observed(observed)) => {
                match exit_reason(&observed) {
                    Some(reason) => {
                        self.phase = MonitorPhase::Exited;
                        MonitorAction::Exit(reason)
                    },
                    None => {
                        let after = observed.unwrap();
                        match adjustment(&before, &after) {
                            Adjustment::BackOff => {
                                self.poller.increase_interval();
                            },
                            Adjustment::Reset => {
                                self.poller.reset_interval();
                            },
                        }
                        self.phase = MonitorPhase::Waiting;
                        MonitorAction::Wait
                    },
                }
            },
            (MonitorPhase::Waiting, MonitorEvent::TimerElapsed) => {
                self.phase = MonitorPhase::Idle;
                MonitorAction::Observe
            },
            (MonitorPhase::Waiting, MonitorEvent::ChangeDetected) => {
                if self.poller.is_watching() {
                    self.phase = MonitorPhase::Idle;
                    MonitorAction::Observe
                } else {
                    MonitorAction::Ignore
                }
            },
            _ => MonitorAction::Ignore,
        }
    }
}

/// A loop without a live watch never takes a change for its trigger: in any
/// phase the report of a change is ignored and leaves the loop as it was.
pub proof fn lemma_change_needs_watch(state: MonitorView)
    requires
        !state.poller.watching,
    ensures
        react(state, MonitorEvent::ChangeDetected) == (state, MonitorAction::Ignore),
{
}

/// With a live watch, the timer and a change are the same trigger: either
/// one sends a waiting loop back to reading the status.
pub proof fn lemma_triggers_agree(state: MonitorView)
    requires
        state.phase is Waiting,
        state.poller.watching,
    ensures
        react(state, MonitorEvent::TimerElapsed) == react(state, MonitorEvent::ChangeDetected),
        react(state, MonitorEvent::TimerElapsed).1 == MonitorAction::Observe,
        react(state, MonitorEvent::TimerElapsed).0.phase is Idle,
{
}

/// A repository that is not indexable, or whose record is gone, ends the
/// loop at the next look at its record, before and after a sync alike.
pub proof fn lemma_unindexable_exits(state: MonitorView, observed: Option<Snapshot>)
    requires
        state.phase is Idle || state.phase is Evaluating,
        observed matches Some(seen) ==> !seen.status.is_indexable(),
    ensures
        react(state, MonitorEvent::Observed(observed)).0.phase is Exited,
        react(state, MonitorEvent::Observed(observed)).1 is Exit,
        react(state, MonitorEvent::Observed(observed)).0.poller == state.poller,
{
}

/// A failed sync ends the loop.
pub proof fn lemma_failed_sync_exits(state: MonitorView)
    requires
        state.phase is Syncing,
    ensures
        react(state, MonitorEvent::Synced(false)) == (
            MonitorView { phase: MonitorPhase::Exited, ..state },
            MonitorAction::Exit(ExitReason::SyncFailed),
        ),
{
}

/// A loop that is over stays over: it ignores every event.
pub proof fn lemma_exit_is_final(state: MonitorView, event: MonitorEvent)
    requires
        state.phase is Exited,
    ensures
        react(state, event) == (state, MonitorAction::Ignore),
{
}

/// A sync is only ever asked for from the idle phase, and the next one not
/// before the loop has been through evaluating and waiting: no two syncs of
/// one loop overlap.
pub proof fn lemma_one_sync_at_a_time(state: MonitorView, event: MonitorEvent)
    ensures
        react(state, event).1 is Sync ==> state.phase is Idle && react(
            state,
            event,
        ).0.phase is Syncing,
        state.phase is Syncing ==> !(react(state, event).0.phase is Idle),
{
}

/// After a sync that left the last commit and the status as they were, with
/// the index up to date, the loop backs off; after any other sync that
/// leaves the repository indexable it resets. Either way the poller stays
/// well formed and keeps its floor and its watch.
pub proof fn lemma_evaluation_adjusts_poller(state: MonitorView, before: Snapshot, after: Snapshot)
    requires
        state.phase == (MonitorPhase::Evaluating { before }),
        state.poller.wf(),
        after.status.is_indexable(),
    ensures
        ({
            let (next, action) = react(state, MonitorEvent::Observed(Some(after)));
            &&& action == MonitorAction::Wait
            &&& next.phase is Waiting
            &&& next.poller.wf()
            &&& next.poller.floor == state.poller.floor
            &&& next.poller.watching == state.poller.watching
            &&& next.poller == if before == after && after.status == SyncStatus::Done {
                state.poller.backed_off()
            } else {
                state.poller.reset()
            }
        }),
{
}

/// A sync that changes the status resets the poller even if the last commit
/// is where it was: a repository that was queued, or whose last run failed,
/// and that is up to date after the sync, is polled from the floor again.
pub proof fn lemma_status_change_resets(state: MonitorView, before: Snapshot, after: Snapshot)
    requires
        state.phase == (MonitorPhase::Evaluating { before }),
        after.status.is_indexable(),
        before.status != after.status,
    ensures
        react(state, MonitorEvent::Observed(Some(after))) == (
            MonitorView { phase: MonitorPhase::Waiting, poller: state.poller.reset() },
            MonitorAction::Wait,
        ),
{
}

} // verus!
