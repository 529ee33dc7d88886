use bleep::credentials::{
    installation_token_stale, rotation_verdict, Action, Credential, CredentialSlot, Engine, Event,
    Phase, Policies, RefreshOutcome, TokenBundle, Validation, Verdict, Verification,
    INSTALLATION_MARGIN_SECS, ROTATION_MARGIN_SECS,
};

const NOW: i64 = 1_700_000_000;

fn bundle() -> TokenBundle {
    TokenBundle {
        access_token: "access-1".to_string(),
        refresh_token: "refresh-1".to_string(),
        github_access_token: "gho-1".to_string(),
    }
}

fn oauth() -> Option<Credential> {
    Some(Credential::OAuth(bundle()))
}

fn installation(expiry_unix_secs: i64) -> Option<Credential> {
    Some(Credential::Installation { token: "ghs-1".to_string(), expiry_unix_secs })
}

fn user_auth_only() -> Policies {
    Policies { installation: false, user_auth: true }
}

fn installation_only() -> Policies {
    Policies { installation: true, user_auth: false }
}

fn both() -> Policies {
    Policies { installation: true, user_auth: true }
}

fn claims(exp: u64) -> Verification {
    Verification::Claims { exp: Some(exp) }
}

/// An engine that has just been asked to verify the access token of `bundle()`.
fn verifying() -> Engine {
    let (engine, action) =
        Engine::new(user_auth_only()).step(Event::Begin { held: oauth(), now: NOW });
    assert_eq!(action, Action::Verify { access_token: "access-1".to_string() });
    assert_eq!(engine.phase(), &Phase::Verifying { bundle: bundle() });
    engine
}

/// An engine that has just asked for the refresh token of `bundle()` to be exchanged.
fn rotating() -> Engine {
    let (engine, action) =
        verifying().step(Event::Verified { outcome: Verification::Failed, now: NOW });
    assert_eq!(action, Action::RequestRefresh { refresh_token: "refresh-1".to_string() });
    assert_eq!(engine.phase(), &Phase::Rotating { bundle: bundle() });
    engine
}

#[test]
fn margins_are_ten_minutes() {
    assert_eq!(INSTALLATION_MARGIN_SECS, 600);
    assert_eq!(ROTATION_MARGIN_SECS, 600);
}

#[test]
fn installation_token_is_stale_when_missing() {
    assert!(installation_token_stale(&None, NOW));
    assert!(installation_token_stale(&None, i64::MIN));
    assert!(installation_token_stale(&None, i64::MAX));
}

#[test]
fn installation_token_is_stale_when_the_slot_holds_a_user_bundle() {
    assert!(installation_token_stale(&oauth(), NOW));
}

#[test]
fn installation_token_is_stale_within_ten_minutes_of_expiry() {
    assert!(!installation_token_stale(&installation(NOW + 601), NOW));
    assert!(installation_token_stale(&installation(NOW + 600), NOW));
    assert!(installation_token_stale(&installation(NOW + 599), NOW));
    assert!(installation_token_stale(&installation(NOW), NOW));
    assert!(installation_token_stale(&installation(NOW - 1), NOW));
    assert!(!installation_token_stale(&installation(NOW + 3600), NOW));
}

#[test]
fn installation_staleness_does_not_overflow() {
    assert!(installation_token_stale(&installation(i64::MAX), i64::MAX));
    assert!(!installation_token_stale(&installation(i64::MAX), 0));
    assert!(installation_token_stale(&installation(i64::MIN), i64::MIN));
    assert!(installation_token_stale(&installation(i64::MIN), i64::MAX));
}

#[test]
fn rotation_verdict_at_the_threshold() {
    let now = NOW as u64;
    assert_eq!(rotation_verdict(&claims(now + 601), NOW), Verdict::Keep);
    assert_eq!(rotation_verdict(&claims(now + 600), NOW), Verdict::Keep);
    assert_eq!(rotation_verdict(&claims(now + 599), NOW), Verdict::Rotate);
    assert_eq!(rotation_verdict(&claims(now), NOW), Verdict::Rotate);
    assert_eq!(rotation_verdict(&claims(now - 1), NOW), Verdict::Rotate);
    assert_eq!(rotation_verdict(&claims(0), NOW), Verdict::Rotate);
}

#[test]
fn rotation_verdict_does_not_overflow() {
    assert_eq!(rotation_verdict(&claims(u64::MAX), i64::MAX), Verdict::Keep);
    assert_eq!(rotation_verdict(&claims(u64::MAX), i64::MIN), Verdict::Keep);
    assert_eq!(rotation_verdict(&claims(0), i64::MIN), Verdict::Keep);
    assert_eq!(rotation_verdict(&claims(0), i64::MAX), Verdict::Rotate);
}

#[test]
fn rotation_verdict_without_usable_claims() {
    assert_eq!(rotation_verdict(&Verification::Claims { exp: None }, NOW), Verdict::Abandon);
    assert_eq!(rotation_verdict(&Verification::NotAnObject, NOW), Verdict::Rotate);
    assert_eq!(rotation_verdict(&Verification::Failed, NOW), Verdict::Rotate);
}

#[test]
fn new_engine_is_idle() {
    let engine = Engine::new(both());
    assert!(engine.is_idle());
    assert_eq!(engine.phase(), &Phase::Idle);
    assert_eq!(engine.policies(), both());
}

#[test]
fn no_policy_means_nothing_to_do() {
    let policies = Policies { installation: false, user_auth: false };
    for held in [None, oauth(), installation(NOW)] {
        let (engine, action) = Engine::new(policies).step(Event::Begin { held, now: NOW });
        assert_eq!(action, Action::Finish);
        assert!(engine.is_idle());
    }
}

#[test]
fn token_expiring_in_601_seconds_is_not_rotated() {
    let (engine, action) =
        verifying().step(Event::Verified { outcome: claims(NOW as u64 + 601), now: NOW });
    assert_eq!(action, Action::Validate);
    assert_eq!(engine.phase(), &Phase::Validating);
}

#[test]
fn token_expiring_in_599_seconds_is_rotated() {
    let (engine, action) =
        verifying().step(Event::Verified { outcome: claims(NOW as u64 + 599), now: NOW });
    assert_eq!(action, Action::RequestRefresh { refresh_token: "refresh-1".to_string() });
    assert_eq!(engine.phase(), &Phase::Rotating { bundle: bundle() });
}

#[test]
fn token_expiring_in_600_seconds_is_not_rotated() {
    let (_, action) =
        verifying().step(Event::Verified { outcome: claims(NOW as u64 + 600), now: NOW });
    assert_eq!(action, Action::Validate);
}

#[test]
fn expired_token_is_rotated() {
    let (_, action) =
        verifying().step(Event::Verified { outcome: claims(NOW as u64 - 5), now: NOW });
    assert_eq!(action, Action::RequestRefresh { refresh_token: "refresh-1".to_string() });
}

#[test]
fn claims_without_expiry_end_the_cycle() {
    let (engine, action) = verifying()
        .step(Event::Verified { outcome: Verification::Claims { exp: None }, now: NOW });
    assert_eq!(action, Action::Finish);
    assert!(engine.is_idle());
}

#[test]
fn claims_that_are_no_object_are_rotated() {
    let (engine, action) =
        verifying().step(Event::Verified { outcome: Verification::NotAnObject, now: NOW });
    assert_eq!(action, Action::RequestRefresh { refresh_token: "refresh-1".to_string() });
    assert_eq!(engine.phase(), &Phase::Rotating { bundle: bundle() });
}

#[test]
fn failed_verification_is_rotated() {
    let engine = rotating();
    assert!(!engine.is_idle());
}

#[test]
fn undecodable_refresh_response_removes_credentials_once() {
    let (engine, action) =
        rotating().step(Event::Refreshed { outcome: RefreshOutcome::Undecodable });
    assert_eq!(action, Action::RemoveCredentials);
    assert!(engine.is_idle());

    // Nothing that is reported afterwards makes the engine ask again.
    let mut engine = engine;
    let mut removals = 1;
    let later = [
        Event::Refreshed { outcome: RefreshOutcome::Undecodable },
        Event::Refreshed { outcome: RefreshOutcome::Token("access-2".to_string()) },
        Event::Verified { outcome: Verification::Failed, now: NOW },
        Event::Validated { outcome: Validation::Failed },
        Event::InstallationRefreshed { held: oauth() },
    ];
    for event in later {
        let (next, action) = engine.step(event);
        if action == Action::RemoveCredentials {
            removals += 1;
        }
        assert_eq!(action, Action::Ignore);
        assert!(next.is_idle());
        engine = next;
    }
    assert_eq!(removals, 1);

    // The slot is empty now, so the next cycle has nothing to rotate.
    let mut slot = CredentialSlot::new();
    slot.set(Credential::OAuth(bundle()));
    assert!(slot.apply(&Action::RemoveCredentials));
    assert_eq!(slot.get(), &None);
    let (engine, action) = engine.step(Event::Begin { held: None, now: NOW + 180 });
    assert_eq!(action, Action::Finish);
    assert!(engine.is_idle());
}

#[test]
fn transport_failure_ends_the_cycle_and_keeps_credentials() {
    let (engine, action) =
        rotating().step(Event::Refreshed { outcome: RefreshOutcome::TransportFailed });
    assert_eq!(action, Action::Finish);
    assert!(engine.is_idle());
    let mut slot = CredentialSlot::new();
    slot.set(Credential::OAuth(bundle()));
    assert!(!slot.apply(&action));
    assert_eq!(slot.get(), &oauth());
}

#[test]
fn successful_rotation_installs_the_new_access_token() {
    let (engine, action) = rotating()
        .step(Event::Refreshed { outcome: RefreshOutcome::Token("access-2".to_string()) });
    let expected = TokenBundle {
        access_token: "access-2".to_string(),
        refresh_token: "refresh-1".to_string(),
        github_access_token: "gho-1".to_string(),
    };
    assert_eq!(action, Action::Install { bundle: expected });
    assert_eq!(engine.phase(), &Phase::Validating);
}

#[test]
fn validation_with_a_user_remembers_the_name() {
    let (engine, _) = rotating()
        .step(Event::Refreshed { outcome: RefreshOutcome::Token("access-2".to_string()) });
    let (engine, action) =
        engine.step(Event::Validated { outcome: Validation::User("octocat".to_string()) });
    assert_eq!(action, Action::RememberUser { name: "octocat".to_string() });
    assert!(engine.is_idle());
}

#[test]
fn validation_without_a_user_finishes() {
    let (engine, _) =
        verifying().step(Event::Verified { outcome: claims(NOW as u64 + 3600), now: NOW });
    let (engine, action) = engine.step(Event::Validated { outcome: Validation::Anonymous });
    assert_eq!(action, Action::Finish);
    assert!(engine.is_idle());
}

#[test]
fn failed_validation_removes_credentials() {
    let (engine, _) =
        verifying().step(Event::Verified { outcome: claims(NOW as u64 + 3600), now: NOW });
    let (engine, action) = engine.step(Event::Validated { outcome: Validation::Failed });
    assert_eq!(action, Action::RemoveCredentials);
    assert!(engine.is_idle());
}

#[test]
fn failed_validation_after_rotation_removes_credentials() {
    let (engine, _) = rotating()
        .step(Event::Refreshed { outcome: RefreshOutcome::Token("access-2".to_string()) });
    let (engine, action) = engine.step(Event::Validated { outcome: Validation::Failed });
    assert_eq!(action, Action::RemoveCredentials);
    assert!(engine.is_idle());
}

#[test]
fn user_policy_needs_a_bundle() {
    for held in [None, installation(NOW + 7200)] {
        let (engine, action) =
            Engine::new(user_auth_only()).step(Event::Begin { held, now: NOW });
        assert_eq!(action, Action::Finish);
        assert!(engine.is_idle());
    }
}

#[test]
fn installation_policy_refreshes_a_missing_token() {
    let (engine, action) =
        Engine::new(installation_only()).step(Event::Begin { held: None, now: NOW });
    assert_eq!(action, Action::RefreshInstallationToken);
    assert_eq!(engine.phase(), &Phase::RefreshingInstallation);
    let (engine, action) =
        engine.step(Event::InstallationRefreshed { held: installation(NOW + 3600) });
    assert_eq!(action, Action::Finish);
    assert!(engine.is_idle());
}

#[test]
fn installation_policy_leaves_a_fresh_token_alone() {
    let (engine, action) = Engine::new(installation_only())
        .step(Event::Begin { held: installation(NOW + 601), now: NOW });
    assert_eq!(action, Action::Finish);
    assert!(engine.is_idle());
}

#[test]
fn installation_policy_refreshes_a_token_about_to_expire() {
    let (engine, action) = Engine::new(installation_only())
        .step(Event::Begin { held: installation(NOW + 600), now: NOW });
    assert_eq!(action, Action::RefreshInstallationToken);
    assert_eq!(engine.phase(), &Phase::RefreshingInstallation);
}

#[test]
fn failed_installation_refresh_is_not_fatal() {
    let (engine, _) =
        Engine::new(installation_only()).step(Event::Begin { held: None, now: NOW });
    let (engine, action) = engine.step(Event::InstallationRefreshed { held: None });
    assert_eq!(action, Action::Finish);
    assert!(engine.is_idle());
    // The next cycle tries again.
    let (_, action) = engine.step(Event::Begin { held: None, now: NOW + 180 });
    assert_eq!(action, Action::RefreshInstallationToken);
}

#[test]
fn both_policies_run_back_to_back() {
    let (engine, action) = Engine::new(both()).step(Event::Begin { held: oauth(), now: NOW });
    assert_eq!(action, Action::RefreshInstallationToken);
    let (engine, action) = engine.step(Event::InstallationRefreshed { held: oauth() });
    assert_eq!(action, Action::Verify { access_token: "access-1".to_string() });
    assert_eq!(engine.phase(), &Phase::Verifying { bundle: bundle() });
    assert_eq!(engine.policies(), both());
}

#[test]
fn user_policy_sees_what_the_installation_refresh_left() {
    let (engine, _) = Engine::new(both()).step(Event::Begin { held: oauth(), now: NOW });
    let (engine, action) =
        engine.step(Event::InstallationRefreshed { held: installation(NOW + 3600) });
    assert_eq!(action, Action::Finish);
    assert!(engine.is_idle());
}

#[test]
fn events_out_of_place_are_ignored_by_the_engine() {
    let (engine, action) =
        Engine::new(both()).step(Event::Validated { outcome: Validation::Failed });
    assert_eq!(action, Action::Ignore);
    assert!(engine.is_idle());
    let (engine, action) = verifying().step(Event::Begin { held: None, now: NOW });
    assert_eq!(action, Action::Ignore);
    assert_eq!(engine.phase(), &Phase::Verifying { bundle: bundle() });
    let (engine, action) =
        engine.step(Event::Refreshed { outcome: RefreshOutcome::Undecodable });
    assert_eq!(action, Action::Ignore);
    assert_eq!(engine.phase(), &Phase::Verifying { bundle: bundle() });
}

#[test]
fn begin_reads_the_clock() {
    // An installation token that expired long ago is stale at any present time.
    let (engine, action) = Engine::new(installation_only()).begin(installation(0));
    assert_eq!(action, Action::RefreshInstallationToken);
    assert_eq!(engine.phase(), &Phase::RefreshingInstallation);
    // One that expires at the end of time is not.
    let (engine, action) = Engine::new(installation_only()).begin(installation(i64::MAX));
    assert_eq!(action, Action::Finish);
    assert!(engine.is_idle());
}

#[test]
fn verified_reads_the_clock() {
    let (engine, action) = verifying().verified(claims(0));
    assert_eq!(action, Action::RequestRefresh { refresh_token: "refresh-1".to_string() });
    assert_eq!(engine.phase(), &Phase::Rotating { bundle: bundle() });
    let (engine, action) = verifying().verified(claims(u64::MAX));
    assert_eq!(action, Action::Validate);
    assert_eq!(engine.phase(), &Phase::Validating);
}

#[test]
fn token_bundle_clone_is_equal() {
    assert_eq!(bundle().clone(), bundle());
}

#[test]
fn slot_starts_empty() {
    let slot = CredentialSlot::new();
    assert_eq!(slot.get(), &None);
}

#[test]
fn slot_set_replaces_and_remove_empties() {
    let mut slot = CredentialSlot::new();
    slot.set(Credential::Installation { token: "ghs-1".to_string(), expiry_unix_secs: 5 });
    assert_eq!(slot.get(), &installation(5));
    slot.set(Credential::OAuth(bundle()));
    assert_eq!(slot.get(), &oauth());
    assert_eq!(slot.remove(), oauth());
    assert_eq!(slot.get(), &None);
    assert_eq!(slot.remove(), None);
}

#[test]
fn slot_apply_install_persists_the_bundle() {
    let mut slot = CredentialSlot::new();
    assert!(slot.apply(&Action::Install { bundle: bundle() }));
    assert_eq!(slot.get(), &oauth());
}

#[test]
fn slot_apply_remove_persists_only_if_something_was_there() {
    let mut slot = CredentialSlot::new();
    assert!(!slot.apply(&Action::RemoveCredentials));
    assert_eq!(slot.get(), &None);
    slot.set(Credential::OAuth(bundle()));
    assert!(slot.apply(&Action::RemoveCredentials));
    assert_eq!(slot.get(), &None);
    assert!(!slot.apply(&Action::RemoveCredentials));
}

#[test]
fn slot_apply_remember_user_persists_and_keeps_the_slot() {
    let mut slot = CredentialSlot::new();
    slot.set(Credential::OAuth(bundle()));
    assert!(slot.apply(&Action::RememberUser { name: "octocat".to_string() }));
    assert_eq!(slot.get(), &oauth());
}

#[test]
fn slot_apply_leaves_other_actions_alone() {
    let mut slot = CredentialSlot::new();
    slot.set(Credential::OAuth(bundle()));
    for action in [
        Action::RefreshInstallationToken,
        Action::Verify { access_token: "a".to_string() },
        Action::RequestRefresh { refresh_token: "r".to_string() },
        Action::Validate,
        Action::Finish,
        Action::Ignore,
    ] {
        assert!(!slot.apply(&action));
        assert_eq!(slot.get(), &oauth());
    }
}

#[test]
fn full_rotation_cycle_through_the_slot() {
    let mut slot = CredentialSlot::new();
    slot.set(Credential::OAuth(bundle()));
    let engine = Engine::new(user_auth_only());
    let (engine, action) = engine.step(Event::Begin { held: slot.remove(), now: NOW });
    slot.set(Credential::OAuth(bundle()));
    assert!(!slot.apply(&action));
    let (engine, action) =
        engine.step(Event::Verified { outcome: claims(NOW as u64 + 10), now: NOW });
    assert!(!slot.apply(&action));
    let (engine, action) =
        engine.step(Event::Refreshed { outcome: RefreshOutcome::Token("access-2".to_string()) });
    assert!(slot.apply(&action));
    let (engine, action) =
        engine.step(Event::Validated { outcome: Validation::User("octocat".to_string()) });
    assert!(slot.apply(&action));
    assert!(engine.is_idle());
    match slot.get() {
        Some(Credential::OAuth(held)) => {
            assert_eq!(held.access_token, "access-2");
            assert_eq!(held.refresh_token, "refresh-1");
            assert_eq!(held.github_access_token, "gho-1");
        }
        other => panic!("expected a token bundle, got {:?}", other),
    }
}

#[test]
fn credential_clone_is_equal() {
    assert_eq!(oauth().clone(), oauth());
    assert_eq!(installation(9).clone(), installation(9));
}
