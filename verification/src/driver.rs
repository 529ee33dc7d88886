//! The driver of credential maintenance and repository-list refreshes.
//!
//! The driver keeps one loop going: look for credentials and fetch the
//! repository list, publish it, run a maintenance cycle of the credential
//! engine, then rest until the refresh period has passed or the credentials
//! change. While there are no credentials, or the list cannot be fetched, it
//! retries after a short pause. A notification that arrives before the
//! refresh period is over does not cut the rest short.

use crate::clock::unix_now;
use vstd::prelude::*;

verus! {

/// Seconds between two attempts while credentials or the list are missing.
pub const LIVENESS_SECS: u64 = 1;

/// Seconds of rest between two refreshes of the repository list.
pub const POLL_PERIOD_SECS: u64 = 180;

/// How a look for credentials and the repository list ended.
#[derive(Clone, Copy, Debug, PartialEq, Eq, Structural)]
pub enum Probe {
    /// The slot holds no credentials.
    NoCredentials,
    /// Credentials are held, but the list could not be fetched.
    ListFailed,
    /// The list was fetched and published.
    Listed,
}

/// What ended a rest.
#[derive(Clone, Copy, Debug, PartialEq, Eq, Structural)]
pub enum Wake {
    /// The refresh period ran out.
    Timer,
    /// The credentials changed.
    Notification,
    /// The notification channel closed.
    Disconnected,
}

/// What the caller reports to the driver.
#[derive(Clone, Copy, Debug, PartialEq, Eq, Structural)]
pub enum DriverEvent {
    /// A maintenance cycle of the credential engine is over.
    Maintained,
    /// A probe is over.
    Probed(Probe),
    /// The pause is over.
    Paused,
    /// The notification caused by publishing the list has been received, or
    /// the channel closed.
    Settled,
    /// The rest ended at Unix time `now`.
    Woke { cause: Wake, now: i64 },
}

/// What the driver asks the caller to do next.
#[derive(Clone, Copy, Debug, PartialEq, Eq, Structural)]
pub enum DriverAction {
    /// Run a maintenance cycle, then report [`DriverEvent::Maintained`].
    Maintain,
    /// Look for credentials, fetch the repository list and publish it, then
    /// report [`DriverEvent::Probed`].
    Probe,
    /// Sleep for `secs` seconds, then report [`DriverEvent::Paused`].
    Pause { secs: u64 },
    /// Wait for one notification, then report [`DriverEvent::Settled`].
    Settle,
    /// Wait for a notification, but no longer than `secs` seconds, then
    /// report [`DriverEvent::Woke`].
    Rest { secs: u64 },
    /// The event does not belong to the current phase and changed nothing.
    Ignore,
}

/// Where the driver stands.
#[derive(Clone, Copy, Debug, PartialEq, Eq, Structural)]
pub enum DriverPhase {
    /// The first maintenance cycle is running.
    Starting,
    /// A probe is running.
    Probing,
    /// Pausing before the next probe.
    Pausing,
    /// The maintenance cycle after a published list is running.
    Maintaining,
    /// Waiting for the notification that publishing the list caused.
    Settling,
    /// Resting until the next refresh.
    Resting,
}

/// The driver's state: its phase and the Unix time of the last refresh.
#[derive(Clone, Copy, Debug, PartialEq, Eq, Structural)]
pub struct DriverState {
    pub phase: DriverPhase,
    pub last_poll: i64,
}

/// Whether a wake-up at `now` ends the rest. The timer and a closed channel
/// always do; a notification does only if more than the refresh period has
/// passed since the last refresh.
pub open spec fn ends_rest(cause: Wake, last_poll: int, now: int) -> bool {
    match cause {
        Wake::Timer => true,
        Wake::Disconnected => true,
        Wake::Notification => now - last_poll > POLL_PERIOD_SECS as int,
    }
}

/// The driver's transition function: the state after `event` and the action
/// it calls for.
pub open spec fn advance(state: DriverState, event: DriverEvent) -> (DriverState, DriverAction) {
    match (state.phase, event) {
        (DriverPhase::Starting, DriverEvent::Maintained) => (
            DriverState { phase: DriverPhase::Probing, ..state },
            DriverAction::Probe,
        ),
        (DriverPhase::Probing, DriverEvent::Probed(Probe::Listed)) => (
            DriverState { phase: DriverPhase::Maintaining, ..state },
            DriverAction::Maintain,
        ),
        (DriverPhase::Probing, DriverEvent::Probed(_)) => (
            DriverState { phase: DriverPhase::Pausing, ..state },
            DriverAction::Pause { secs: LIVENESS_SECS },
        ),
        (DriverPhase::Pausing, DriverEvent::Paused) => (
            DriverState { phase: DriverPhase::Probing, ..state },
            DriverAction::Probe,
        ),
        (DriverPhase::Maintaining, DriverEvent::Maintained) => (
            DriverState { phase: DriverPhase::Settling, ..state },
            DriverAction::Settle,
        ),
        (DriverPhase::Settling, DriverEvent::Settled) => (
            DriverState { phase: DriverPhase::Resting, ..state },
            DriverAction::Rest { secs: POLL_PERIOD_SECS },
        ),
        (DriverPhase::Resting, DriverEvent::Woke { cause, now }) => if ends_rest(
            cause,
            state.last_poll as int,
            now as int,
        ) {
            (DriverState { phase: DriverPhase::Probing, last_poll: now }, DriverAction::Probe)
        } else {
            (state, DriverAction::Rest { secs: POLL_PERIOD_SECS })
        },
        _ => (state, DriverAction::Ignore),
    }
}

/// The state in which the driver starts: the first maintenance cycle is
/// running and no refresh has happened yet.
pub open spec fn initial_state() -> DriverState {
    DriverState { phase: DriverPhase::Starting, last_poll: 0 }
}

/// Decides whether a wake-up at `now` ends the rest.
pub fn rest_is_over(cause: Wake, last_poll: i64, now: i64) -> (over: bool)
    ensures
        over == ends_rest(cause, last_poll as int, now as int),
{
    match cause {
        Wake::Timer => true,
        Wake::Disconnected => true,
        Wake::Notification => now as i128 - last_poll as i128 > POLL_PERIOD_SECS as i128,
    }
}

/// The driver.
pub struct Driver {
    state: DriverState,
}

impl View for Driver {
    type V = DriverState;

    closed spec fn view(&self) -> DriverState {
        self.state
    }
}

impl Driver {
    /// A driver in its initial state. The caller starts by running a
    /// maintenance cycle and reporting [`DriverEvent::Maintained`].
    pub fn new() -> (driver: Driver)
        ensures
            driver@ == initial_state(),
    {
        Driver { state: DriverState { phase: DriverPhase::Starting, last_poll: 0 } }
    }

    /// The driver's state.
    pub fn state(&self) -> (state: DriverState)
        ensures
            state == self@,
    {
        self.state
    }

    /// Takes `event` and returns the action to perform.
    pub fn step(&mut self, event: DriverEvent) -> (action: DriverAction)
        ensures
            (final(self)@, action) == advance(old(self)@, event),
    {
        let last_poll = self.state.last_poll;
        match (self.state.phase, event) {
            (DriverPhase::Starting, DriverEvent::Maintained) => {
                self.state.phase = DriverPhase::Probing;
                DriverAction::Probe
            },
            (DriverPhase::Probing, DriverEvent::Probed(Probe::Listed)) => {
                self.state.phase = DriverPhase::Maintaining;
                DriverAction::Maintain
            },
            (DriverPhase::Probing, DriverEvent::Probed(_)) => {
                self.state.phase = DriverPhase::Pausing;
                DriverAction::Pause { secs: LIVENESS_SECS }
            },
            (DriverPhase::Pausing, DriverEvent::Paused) => {
                self.state.phase = DriverPhase::Probing;
                DriverAction::Probe
            },
            (DriverPhase::Maintaining, DriverEvent::Maintained) => {
                self.state.phase = DriverPhase::Settling;
                DriverAction::Settle
            },
            (DriverPhase::Settling, DriverEvent::Settled) => {
                self.state.phase = DriverPhase::Resting;
                DriverAction::Rest { secs: POLL_PERIOD_SECS }
            },
            (DriverPhase::Resting, DriverEvent::Woke { cause, now }) => {
                if rest_is_over(cause, last_poll, now) {
                    self.state = DriverState { phase: DriverPhase::Probing, last_poll: now };
                    DriverAction::Probe
                } else {
                    DriverAction::Rest { secs: POLL_PERIOD_SECS }
                }
            },
            _ => DriverAction::Ignore,
        }
    }

    /// Reports that the rest ended just now, as [`Driver::step`] does for
    /// [`DriverEvent::Woke`] with the clock's reading.
    pub fn woke(&mut self, cause: Wake) -> (action: DriverAction)
        ensures
            exists|now: i64|
                (final(self)@, action) == #[trigger] advance(
                    old(self)@,
                    DriverEvent::Woke { cause, now },
                ),
    {
        let now = unix_now();
        self.step(DriverEvent::Woke { cause, now })
    }
}

/// The refresh period is the second entry of the backoff schedule.
pub proof fn lemma_poll_period_is_scheduled()
    ensures
        POLL_PERIOD_SECS as int == crate::schedule::schedule()[1],
{
}

/// The guard against bursts. While the driver rests, a notification that
/// arrives no more than the refresh period after the last refresh changes
/// nothing: the driver rests again and the time of the last refresh stays.
pub proof fn lemma_early_notification_keeps_resting(last_poll: i64, now: i64)
    requires
        now - last_poll <= POLL_PERIOD_SECS,
    ensures
        ({
            let state = DriverState { phase: DriverPhase::Resting, last_poll };
            let event = DriverEvent::Woke { cause: Wake::Notification, now };
            advance(state, event) == (state, DriverAction::Rest { secs: POLL_PERIOD_SECS })
        }),
{
}

/// The state after a run of notifications that arrive at `times`, one after
/// the other, while the driver rests.
pub open spec fn after_notifications(state: DriverState, times: Seq<i64>) -> DriverState
    decreases times.len(),
{
    if times.len() == 0 {
        state
    } else {
        after_notifications(
            advance(state, DriverEvent::Woke { cause: Wake::Notification, now: times[0] }).0,
            times.skip(1),
        )
    }
}

/// A burst of notifications, however long, none of them later than the
/// refresh period after the last refresh, leaves the driver resting with
/// the time of the last refresh unchanged: the burst causes no refresh.
pub proof fn lemma_burst_causes_no_refresh(last_poll: i64, times: Seq<i64>)
    requires
        forall|i: int| 0 <= i < times.len() ==> #[trigger] times[i] - last_poll <= POLL_PERIOD_SECS,
    ensures
        after_notifications(DriverState { phase: DriverPhase::Resting, last_poll }, times) == (
            DriverState { phase: DriverPhase::Resting, last_poll }
        ),
    decreases times.len(),
{
    if times.len() > 0 {
        let rest = times.skip(1);
        assert(times[0] - last_poll <= POLL_PERIOD_SECS);
        assert forall|i: int| 0 <= i < rest.len() implies #[trigger] rest[i] - last_poll
            <= POLL_PERIOD_SECS by {
            assert(rest[i] == times[i + 1]);
        }
        lemma_burst_causes_no_refresh(last_poll, rest);
    }
}

/// Whatever ends a rest starts a probe and becomes the time of the last
/// refresh.
pub proof fn lemma_refresh_records_time(last_poll: i64, cause: Wake, now: i64)
    requires
        ends_rest(cause, last_poll as int, now as int),
    ensures
        ({
            let state = DriverState { phase: DriverPhase::Resting, last_poll };
            advance(state, DriverEvent::Woke { cause, now }) == (
                DriverState { phase: DriverPhase::Probing, last_poll: now },
                DriverAction::Probe,
            )
        }),
{
}

/// Before the first refresh every notification ends the rest, provided the
/// clock reads more than the refresh period past the epoch.
pub proof fn lemma_first_notification_refreshes(now: i64)
    requires
        now > POLL_PERIOD_SECS,
    ensures
        ends_rest(Wake::Notification, initial_state().last_poll as int, now as int),
{
}

} // verus!
