//! The credential lifecycle engine.
//!
//! One maintenance cycle applies two policies in turn. The installation
//! policy replaces a fleet-wide installation token that is missing or about
//! to expire. The user policy verifies the access token of a user's token
//! bundle, rotates it through the refresh endpoint when it is unusable or
//! about to expire, and validates the identity behind the result.
//!
//! The engine decides, the caller acts: every [`Action`] names the outside
//! work to perform, and the [`Event`] handed to the next step says how that
//! work ended.

use crate::clock::unix_now;
use vstd::prelude::*;

verus! {

/// An installation token this close to its expiry, in seconds, is replaced.
pub const INSTALLATION_MARGIN_SECS: i64 = 600;

/// An access token whose expiry claim is this close, in seconds, is rotated.
pub const ROTATION_MARGIN_SECS: i64 = 600;

/// The tokens of a signed-in user.
#[derive(Debug, PartialEq, Eq)]
pub struct TokenBundle {
    pub access_token: String,
    pub refresh_token: String,
    pub github_access_token: String,
}

impl Clone for TokenBundle {
    fn clone(&self) -> (copy: Self)
        ensures
            copy == *self,
    {
        TokenBundle {
            access_token: self.access_token.clone(),
            refresh_token: self.refresh_token.clone(),
            github_access_token: self.github_access_token.clone(),
        }
    }
}

/// What the credential slot may hold.
#[derive(Debug, PartialEq, Eq)]
pub enum Credential {
    /// A fleet-wide installation token and the Unix time at which it expires.
    Installation { token: String, expiry_unix_secs: i64 },
    /// The token bundle of a signed-in user.
    OAuth(TokenBundle),
}

impl Clone for Credential {
    fn clone(&self) -> (copy: Self)
        ensures
            copy == *self,
    {
        match self {
            Credential::Installation { token, expiry_unix_secs } => Credential::Installation {
                token: token.clone(),
                expiry_unix_secs: *expiry_unix_secs,
            },
            Credential::OAuth(bundle) => Credential::OAuth(bundle.clone()),
        }
    }
}

/// Which of the two policies a deployment runs.
#[derive(Clone, Copy, Debug, PartialEq, Eq, Structural)]
pub struct Policies {
    pub installation: bool,
    pub user_auth: bool,
}

/// How the verification of an access token against the provider's key set ended.
#[derive(Debug, PartialEq, Eq)]
pub enum Verification {
    /// The token verified and its claims are an object; `exp` is the expiry
    /// claim, if the object holds one that is an unsigned integer.
    Claims { exp: Option<u64> },
    /// The token verified to something that is not a claims object.
    NotAnObject,
    /// The verification itself failed.
    Failed,
}

/// What the engine does about an access token once it has been verified.
#[derive(Clone, Copy, Debug, PartialEq, Eq, Structural)]
pub enum Verdict {
    /// Exchange the refresh token for a new access token.
    Rotate,
    /// The access token is good for now.
    Keep,
    /// The claims carry no usable expiry: the cycle ends here.
    Abandon,
}

/// How the call to the refresh endpoint ended.
#[derive(Debug, PartialEq, Eq)]
pub enum RefreshOutcome {
    /// No response arrived.
    TransportFailed,
    /// A response arrived whose body is not a token payload.
    Undecodable,
    /// The payload's new access token.
    Token(String),
}

/// How the validation of the identity behind the credentials ended.
#[derive(Debug, PartialEq, Eq)]
pub enum Validation {
    /// The credentials are valid and belong to this user.
    User(String),
    /// The credentials are valid and name no user.
    Anonymous,
    /// The credentials were refused, or none were left to validate.
    Failed,
}

/// What the caller reports to the engine.
#[derive(Debug, PartialEq, Eq)]
#[allow(inconsistent_fields)]
pub enum Event {
    /// A cycle starts: the slot's content and the current Unix time.
    Begin { held: Option<Credential>, now: i64 },
    /// The installation token was asked for; `held` is the slot's content
    /// afterwards, whether or not the request succeeded.
    InstallationRefreshed { held: Option<Credential> },
    /// The access token was verified at Unix time `now`.
    Verified { outcome: Verification, now: i64 },
    /// The refresh endpoint was called.
    Refreshed { outcome: RefreshOutcome },
    /// The identity was validated.
    Validated { outcome: Validation },
}

/// What the engine asks the caller to do next.
#[derive(Debug, PartialEq, Eq)]
pub enum Action {
    /// Ask the identity backend for a fresh installation token, then report
    /// [`Event::InstallationRefreshed`].
    RefreshInstallationToken,
    /// Verify this access token, then report [`Event::Verified`].
    Verify { access_token: String },
    /// Exchange this refresh token, then report [`Event::Refreshed`].
    RequestRefresh { refresh_token: String },
    /// Put this bundle into the slot, persist it, validate the identity
    /// behind it, then report [`Event::Validated`].
    Install { bundle: TokenBundle },
    /// Validate the identity behind the held credentials, then report
    /// [`Event::Validated`].
    Validate,
    /// Record the user's name and persist it. The cycle is over.
    RememberUser { name: String },
    /// Empty the slot and persist that. The cycle is over.
    RemoveCredentials,
    /// Nothing is left to do. The cycle is over.
    Finish,
    /// The event does not belong to the current phase and changed nothing.
    Ignore,
}

/// Where a cycle stands.
#[derive(Debug, PartialEq, Eq)]
pub enum Phase {
    /// No cycle is running.
    Idle,
    /// Waiting for [`Event::InstallationRefreshed`].
    RefreshingInstallation,
    /// Waiting for [`Event::Verified`] on the access token of `bundle`.
    Verifying { bundle: TokenBundle },
    /// Waiting for [`Event::Refreshed`] on the refresh token of `bundle`.
    Rotating { bundle: TokenBundle },
    /// Waiting for [`Event::Validated`].
    Validating,
}

/// Whether the installation policy asks for a new token: none is held, what
/// is held has no expiry, or the expiry is at most the margin away.
pub open spec fn installation_refresh_due(held: Option<Credential>, now: int) -> bool {
    match held {
        Some(Credential::Installation { expiry_unix_secs, .. }) => expiry_unix_secs as int <= now
            + INSTALLATION_MARGIN_SECS as int,
        _ => true,
    }
}

/// Whether an access token expiring at `exp` is rotated at time `now`: fewer
/// seconds than the margin remain.
pub open spec fn rotation_due(exp: int, now: int) -> bool {
    exp - now < ROTATION_MARGIN_SECS as int
}

/// The verdict on a verified access token.
pub open spec fn verdict_of(outcome: Verification, now: int) -> Verdict {
    match outcome {
        Verification::Claims { exp: Some(exp) } => if rotation_due(exp as int, now) {
            Verdict::Rotate
        } else {
            Verdict::Keep
        },
        Verification::Claims { exp: None } => Verdict::Abandon,
        Verification::NotAnObject => Verdict::Rotate,
        Verification::Failed => Verdict::Rotate,
    }
}

/// The bundle that results from a rotation: a new access token beside the
/// refresh and provider tokens of the bundle it replaces.
pub open spec fn rotated(bundle: TokenBundle, access_token: String) -> TokenBundle {
    TokenBundle {
        access_token,
        refresh_token: bundle.refresh_token,
        github_access_token: bundle.github_access_token,
    }
}

/// How the user policy opens: with the verification of a held bundle's
/// access token, or not at all.
pub open spec fn open_user_policy(policies: Policies, held: Option<Credential>) -> (Phase, Action) {
    match held {
        Some(Credential::OAuth(bundle)) if policies.user_auth => (
            Phase::Verifying { bundle },
            Action::Verify { access_token: bundle.access_token },
        ),
        _ => (Phase::Idle, Action::Finish),
    }
}

/// The engine's transition function: the phase after `event` and the action
/// it calls for.
pub open spec fn transition(policies: Policies, phase: Phase, event: Event) -> (Phase, Action) {
    match (phase, event) {
        (Phase::Idle, Event::Begin { held, now }) => if policies.installation
            && installation_refresh_due(held, now as int) {
            (Phase::RefreshingInstallation, Action::RefreshInstallationToken)
        } else {
            open_user_policy(policies, held)
        },
        (Phase::RefreshingInstallation, Event::InstallationRefreshed { held }) => open_user_policy(
            policies,
            held,
        ),
        (Phase::Verifying { bundle }, Event::Verified { outcome, now }) => match verdict_of(
            outcome,
            now as int,
        ) {
            Verdict::Rotate => (
                Phase::Rotating { bundle },
                Action::RequestRefresh { refresh_token: bundle.refresh_token },
            ),
            Verdict::Keep => (Phase::Validating, Action::Validate),
            Verdict::Abandon => (Phase::Idle, Action::Finish),
        },
        (Phase::Rotating { bundle }, Event::Refreshed { outcome }) => match outcome {
            RefreshOutcome::TransportFailed => (Phase::Idle, Action::Finish),
            RefreshOutcome::Undecodable => (Phase::Idle, Action::RemoveCredentials),
            RefreshOutcome::Token(access_token) => (
                Phase::Validating,
                Action::Install { bundle: rotated(bundle, access_token) },
            ),
        },
        (Phase::Validating, Event::Validated { outcome }) => match outcome {
            Validation::User(name) => (Phase::Idle, Action::RememberUser { name }),
            Validation::Anonymous => (Phase::Idle, Action::Finish),
            Validation::Failed => (Phase::Idle, Action::RemoveCredentials),
        },
        _ => (phase, Action::Ignore),
    }
}

/// Decides whether the installation policy asks for a new token at `now`.
pub fn installation_token_stale(held: &Option<Credential>, now: i64) -> (due: bool)
    ensures
        due == installation_refresh_due(*held, now as int),
{
    match held {
        Some(Credential::Installation { expiry_unix_secs, .. }) => {
            *expiry_unix_secs as i128 <= now as i128 + INSTALLATION_MARGIN_SECS as i128
        },
        _ => true,
    }
}

/// Decides what to do about an access token verified at `now`.
pub fn rotation_verdict(outcome: &Verification, now: i64) -> (verdict: Verdict)
    ensures
        verdict == verdict_of(*outcome, now as int),
{
    match outcome {
        Verification::Claims { exp: Some(exp) } => {
            if (*exp as i128) - (now as i128) < ROTATION_MARGIN_SECS as i128 {
                Verdict::Rotate
            } else {
                Verdict::Keep
            }
        },
        Verification::Claims { exp: None } => Verdict::Abandon,
        Verification::NotAnObject => Verdict::Rotate,
        Verification::Failed => Verdict::Rotate,
    }
}

/// The credential lifecycle engine: the policies it runs and the phase of
/// the cycle in progress.
pub struct Engine {
    policies: Policies,
    phase: Phase,
}

/// The state of an engine.
pub struct EngineView {
    pub policies: Policies,
    pub phase: Phase,
}

impl View for Engine {
    type V = EngineView;

    closed spec fn view(&self) -> EngineView {
        EngineView { policies: self.policies, phase: self.phase }
    }
}

impl Engine {
    /// The policies this engine runs.
    pub fn policies(&self) -> (policies: Policies)
        ensures
            policies == self@.policies,
    {
        self.policies
    }

    /// The phase of the cycle in progress.
    pub fn phase(&self) -> (phase: &Phase)
        ensures
            *phase == self@.phase,
    {
        &self.phase
    }

    /// An engine with no cycle running.
    pub fn new(policies: Policies) -> (engine: Engine)
        ensures
            engine@.policies == policies,
            engine@.phase == Phase::Idle,
    {
        Engine { policies, phase: Phase::Idle }
    }

    /// Whether no cycle is running.
    pub fn is_idle(&self) -> (idle: bool)
        ensures
            idle == (self@.phase is Idle),
    {
        match self.phase {
            Phase::Idle => true,
            _ => false,
        }
    }

    /// Takes `event` and returns the engine in its next phase together with
    /// the action to perform. The policies never change.
    pub fn step(self, event: Event) -> (next: (Engine, Action))
        ensures
            next.0@.policies == self@.policies,
            (next.0@.phase, next.1) == transition(self@.policies, self@.phase, event),
    {
        let policies = self.policies;
        match (self.phase, event) {
            (Phase::Idle, Event::Begin { held, now }) => {
                if policies.installation && installation_token_stale(&held, now) {
                    (
                        Engine { policies, phase: Phase::RefreshingInstallation },
                        Action::RefreshInstallationToken,
                    )
                } else {
                    Self::open_user_policy(policies, held)
                }
            },
            (Phase::RefreshingInstallation, Event::InstallationRefreshed { held }) => {
                Self::open_user_policy(policies, held)
            },
            (Phase::Verifying { bundle }, Event::Verified { outcome, now }) => {
                match rotation_verdict(&outcome, now) {
                    Verdict::Rotate => {
                        let refresh_token = bundle.refresh_token.clone();
                        (
                            Engine { policies, phase: Phase::Rotating { bundle } },
                            Action::RequestRefresh { refresh_token },
                        )
                    },
                    Verdict::Keep => (
                        Engine { policies, phase: Phase::Validating },
                        Action::Validate,
                    ),
                    Verdict::Abandon => (Engine { policies, phase: Phase::Idle }, Action::Finish),
                }
            },
            (Phase::Rotating { bundle }, Event::Refreshed { outcome }) => {
                match outcome {
                    RefreshOutcome::TransportFailed => (
                        Engine { policies, phase: Phase::Idle },
                        Action::Finish,
                    ),
                    RefreshOutcome::Undecodable => (
                        Engine { policies, phase: Phase::Idle },
                        Action::RemoveCredentials,
                    ),
                    RefreshOutcome::Token(access_token) => {
                        let bundle = TokenBundle {
                            access_token,
                            refresh_token: bundle.refresh_token,
                            github_access_token: bundle.github_access_token,
                        };
                        (
                            Engine { policies, phase: Phase::Validating },
                            Action::Install { bundle },
                        )
                    },
                }
            },
            (Phase::Validating, Event::Validated { outcome }) => {
                let idle = Engine { policies, phase: Phase::Idle };
                match outcome {
                    Validation::User(name) => (idle, Action::RememberUser { name }),
                    Validation::Anonymous => (idle, Action::Finish),
                    Validation::Failed => (idle, Action::RemoveCredentials),
                }
            },
            (phase, _) => (Engine { policies, phase }, Action::Ignore),
        }
    }

    /// Starts a cycle at the present time, as [`Engine::step`] does for
    /// [`Event::Begin`] with the clock's reading.
    pub fn begin(self, held: Option<Credential>) -> (next: (Engine, Action))
        ensures
            next.0@.policies == self@.policies,
            exists|now: i64|
                (next.0@.phase, next.1) == #[trigger] transition(
                    self@.policies,
                    self@.phase,
                    Event::Begin { held, now },
                ),
    {
        let now = unix_now();
        self.step(Event::Begin { held, now })
    }

    /// Reports a verification that ended just now, as [`Engine::step`] does
    /// for [`Event::Verified`] with the clock's reading.
    pub fn verified(self, outcome: Verification) -> (next: (Engine, Action))
        ensures
            next.0@.policies == self@.policies,
            exists|now: i64|
                (next.0@.phase, next.1) == #[trigger] transition(
                    self@.policies,
                    self@.phase,
                    Event::Verified { outcome, now },
                ),
    {
        let now = unix_now();
        self.step(Event::Verified { outcome, now })
    }

    fn open_user_policy(policies: Policies, held: Option<Credential>) -> (next: (Engine, Action))
        ensures
            next.0@.policies == policies,
            (next.0@.phase, next.1) == open_user_policy(policies, held),
    {
        if policies.user_auth {
            match held {
                Some(Credential::OAuth(bundle)) => {
                    let access_token = bundle.access_token.clone();
                    (
                        Engine { policies, phase: Phase::Verifying { bundle } },
                        Action::Verify { access_token },
                    )
                },
                _ => (Engine { policies, phase: Phase::Idle }, Action::Finish),
            }
        } else {
            (Engine { policies, phase: Phase::Idle }, Action::Finish)
        }
    }
}

/// What an action leaves in the credential slot.
pub open spec fn slot_after(held: Option<Credential>, action: Action) -> Option<Credential> {
    match action {
        Action::Install { bundle } => Some(Credential::OAuth(bundle)),
        Action::RemoveCredentials => None,
        _ => held,
    }
}

/// Whether an action changes what has to be written to the credential
/// store: a bundle was installed, a user's name was recorded, or credentials
/// that were there have been removed.
pub open spec fn must_persist(held: Option<Credential>, action: Action) -> bool {
    match action {
        Action::Install { .. } => true,
        Action::RememberUser { .. } => true,
        Action::RemoveCredentials => held is Some,
        _ => false,
    }
}

/// The credential slot: at most one credential, replaced or removed whole.
pub struct CredentialSlot {
    held: Option<Credential>,
}

impl CredentialSlot {
    /// What the slot holds.
    pub closed spec fn held(&self) -> Option<Credential> {
        self.held
    }

    /// An empty slot.
    pub fn new() -> (slot: CredentialSlot)
        ensures
            slot.held() is None,
    {
        CredentialSlot { held: None }
    }

    /// What the slot holds.
    pub fn get(&self) -> (held: &Option<Credential>)
        ensures
            *held == self.held(),
    {
        &self.held
    }

    /// Puts `credential` into the slot, in place of what was there.
    pub fn set(&mut self, credential: Credential)
        ensures
            final(self).held() == Some(credential),
    {
        self.held = Some(credential);
    }

    /// Empties the slot and returns what it held.
    pub fn remove(&mut self) -> (removed: Option<Credential>)
        ensures
            removed == old(self).held(),
            final(self).held() is None,
    {
        self.held.take()
    }

    /// Carries out the part of `action` that concerns the slot, and says
    /// whether the credential store has to be written afterwards.
    pub fn apply(&mut self, action: &Action) -> (persist: bool)
        ensures
            final(self).held() == slot_after(old(self).held(), *action),
            persist == must_persist(old(self).held(), *action),
    {
        match action {
            Action::Install { bundle } => {
                self.held = Some(Credential::OAuth(bundle.clone()));
                true
            },
            Action::RememberUser { .. } => true,
            Action::RemoveCredentials => {
                let removed = self.held.take();
                removed.is_some()
            },
            _ => false,
        }
    }
}

/// The actions that a run of events calls for, one per event, starting in `phase`.
pub open spec fn actions_of(policies: Policies, phase: Phase, events: Seq<Event>) -> Seq<Action>
    decreases events.len(),
{
    if events.len() == 0 {
        Seq::empty()
    } else {
        let (next, action) = transition(policies, phase, events[0]);
        seq![action] + actions_of(policies, next, events.skip(1))
    }
}

/// Rotation threshold. With an expiry claim in hand, the engine asks for a
/// rotation exactly when fewer than `ROTATION_MARGIN_SECS` seconds remain,
/// and otherwise goes on to validate the identity with the token it has.
pub proof fn lemma_rotation_threshold(policies: Policies, bundle: TokenBundle, exp: u64, now: i64)
    ensures
        ({
            let event = Event::Verified { outcome: Verification::Claims { exp: Some(exp) }, now };
            let (next, action) = transition(policies, Phase::Verifying { bundle }, event);
            if exp - now < ROTATION_MARGIN_SECS {
                next == (Phase::Rotating { bundle }) && action == (Action::RequestRefresh {
                    refresh_token: bundle.refresh_token,
                })
            } else {
                next == Phase::Validating && action == Action::Validate
            }
        }),
{
}

/// A token bundle whose access token is known to have expired is not kept
/// in use: the engine asks for a rotation before anything else.
pub proof fn lemma_expired_token_is_refreshed(
    policies: Policies,
    bundle: TokenBundle,
    exp: u64,
    now: i64,
)
    requires
        exp <= now,
    ensures
        ({
            let event = Event::Verified { outcome: Verification::Claims { exp: Some(exp) }, now };
            transition(policies, Phase::Verifying { bundle }, event) == (
                Phase::Rotating { bundle },
                Action::RequestRefresh { refresh_token: bundle.refresh_token },
            )
        }),
{
}

/// A token that cannot be vouched for is rotated whatever the clock says:
/// claims that are no object, and a verification that failed, both lead to
/// the refresh endpoint.
pub proof fn lemma_unverifiable_token_rotates(
    policies: Policies,
    bundle: TokenBundle,
    outcome: Verification,
    now: i64,
)
    requires
        outcome is NotAnObject || outcome is Failed,
    ensures
        transition(policies, Phase::Verifying { bundle }, Event::Verified { outcome, now }) == (
            Phase::Rotating { bundle },
            Action::RequestRefresh { refresh_token: bundle.refresh_token },
        ),
{
}

/// A rotation keeps the refresh token and the provider token and replaces
/// the access token alone.
pub proof fn lemma_rotation_keeps_other_tokens(
    policies: Policies,
    bundle: TokenBundle,
    access_token: String,
)
    ensures
        ({
            let event = Event::Refreshed { outcome: RefreshOutcome::Token(access_token) };
            let (next, action) = transition(policies, Phase::Rotating { bundle }, event);
            &&& next == Phase::Validating
            &&& action matches Action::Install { bundle: installed }
            &&& installed.access_token == access_token
            &&& installed.refresh_token == bundle.refresh_token
            &&& installed.github_access_token == bundle.github_access_token
        }),
{
}

/// The refresh endpoint is only ever called for a bundle under verification,
/// and the slot is only ever emptied at the end of a cycle.
pub proof fn lemma_refresh_needs_verification(policies: Policies, phase: Phase, event: Event)
    ensures
        transition(policies, phase, event).1 is RequestRefresh ==> phase is Verifying,
        transition(policies, phase, event).1 is RemoveCredentials ==> transition(
            policies,
            phase,
            event,
        ).0 is Idle,
{
}

/// A cycle that starts without a user's token bundle in the slot never
/// verifies a token: it ends at once, or after the installation token was
/// asked for.
pub proof fn lemma_no_bundle_no_verification(
    policies: Policies,
    held: Option<Credential>,
    after: Option<Credential>,
    now: i64,
)
    requires
        !(held is Some && held->0 is OAuth),
        !(after is Some && after->0 is OAuth),
    ensures
        ({
            let (next, action) = transition(policies, Phase::Idle, Event::Begin { held, now });
            ||| next is Idle && action is Finish
            ||| {
                &&& next is RefreshingInstallation
                &&& action is RefreshInstallationToken
                &&& transition(policies, next, Event::InstallationRefreshed { held: after }) == (
                    Phase::Idle,
                    Action::Finish,
                )
            }
        }),
{
}

/// An undecodable refresh response ends the cycle with one request to empty
/// the slot. Whatever is reported afterwards, short of the start of a new
/// cycle, is ignored: the engine does not ask the endpoint again.
pub proof fn lemma_undecodable_refresh_ends_cycle(
    policies: Policies,
    bundle: TokenBundle,
    later: Seq<Event>,
)
    requires
        forall|i: int| 0 <= i < later.len() ==> !(#[trigger] later[i] is Begin),
    ensures
        ({
            let undecodable = Event::Refreshed { outcome: RefreshOutcome::Undecodable };
            let actions = actions_of(
                policies,
                Phase::Rotating { bundle },
                seq![undecodable] + later,
            );
            &&& transition(policies, Phase::Rotating { bundle }, undecodable) == (
                Phase::Idle,
                Action::RemoveCredentials,
            )
            &&& actions.len() == later.len() + 1
            &&& actions[0] == Action::RemoveCredentials
            &&& forall|i: int| 1 <= i < actions.len() ==> actions[i] == Action::Ignore
        }),
{
    let undecodable = Event::Refreshed { outcome: RefreshOutcome::Undecodable };
    let events = seq![undecodable] + later;
    assert(events[0] == undecodable);
    assert(events.skip(1) =~= later);
    lemma_idle_ignores(policies, later);
}

/// While no cycle is running, every event but the start of one is ignored.
proof fn lemma_idle_ignores(policies: Policies, events: Seq<Event>)
    requires
        forall|i: int| 0 <= i < events.len() ==> !(#[trigger] events[i] is Begin),
    ensures
        actions_of(policies, Phase::Idle, events).len() == events.len(),
        forall|i: int|
            0 <= i < events.len() ==> #[trigger] actions_of(policies, Phase::Idle, events)[i]
                == Action::Ignore,
    decreases events.len(),
{
    if events.len() > 0 {
        let rest = events.skip(1);
        assert(!(events[0] is Begin));
        assert forall|i: int| 0 <= i < rest.len() implies !(#[trigger] rest[i] is Begin) by {
            assert(rest[i] == events[i + 1]);
        }
        lemma_idle_ignores(policies, rest);
    }
}

} // verus!
