use aoede::error::ConnectError;
use aoede::session::{
    device_id_from, fresh_device_id, pairing_client_id, resolve_credentials, CacheProbe,
    CredentialPlan, PairingAction, PairingEvent, PairingFlow, PairingState, CACHE_LIMIT_BYTES,
    PAIRING_TIMEOUT_SECS,
};

fn flow(cache_dir: Option<&str>) -> PairingFlow {
    PairingFlow::new(
        cache_dir.map(|d| d.to_string()),
        "PUPU MUSIC BOT".to_string(),
        "aoede-0123abcd".to_string(),
    )
}

#[test]
fn cached_credentials_are_used() {
    assert_eq!(resolve_credentials(CacheProbe::Holds, true), CredentialPlan::UseCached);
    assert_eq!(resolve_credentials(CacheProbe::Holds, false), CredentialPlan::UseCached);
}

#[test]
fn cache_miss_leads_to_a_pairing() {
    assert_eq!(
        resolve_credentials(CacheProbe::Empty, true),
        CredentialPlan::Pair { persist: true }
    );
    assert_eq!(
        resolve_credentials(CacheProbe::Empty, false),
        CredentialPlan::Pair { persist: false }
    );
    assert_eq!(
        resolve_credentials(CacheProbe::Unavailable, true),
        CredentialPlan::Pair { persist: false }
    );
    assert_eq!(
        resolve_credentials(CacheProbe::Unavailable, false),
        CredentialPlan::Pair { persist: false }
    );
}

#[test]
fn cache_limit_is_four_gigabytes() {
    assert_eq!(CACHE_LIMIT_BYTES, 4 * 10u64.pow(9));
    assert_eq!(PAIRING_TIMEOUT_SECS, 5 * 60);
    assert_eq!(pairing_client_id(), "fa-63-0e-75-00-01");
}

#[test]
fn device_id_is_prefix_and_eight_characters() {
    assert_eq!(
        device_id_from("67e55044-10b1-426f-9247-bb680e5fe0c8"),
        "aoede-67e55044"
    );
    assert_eq!(device_id_from("abc"), "aoede-abc");
    assert_eq!(device_id_from(""), "aoede-");
    assert_eq!(device_id_from("12345678"), "aoede-12345678");
    assert_eq!(device_id_from("äöüßäöüßäöüß"), "aoede-äöüßäöüß");
}

#[test]
fn fresh_device_ids_are_hexadecimal_and_differ() {
    let first = fresh_device_id();
    let second = fresh_device_id();
    for id in [&first, &second] {
        assert_eq!(id.len(), 14);
        assert_eq!(&id[..6], "aoede-");
        assert!(id[6..].chars().all(|c| matches!(c, '0'..='9' | 'a'..='f')));
    }
    let third = fresh_device_id();
    assert!(first != second || second != third);
}

#[test]
fn pairing_with_a_cache_validates_and_saves() {
    let mut pairing = flow(Some("cache"));
    assert_eq!(pairing.device_id(), "aoede-0123abcd");
    assert_eq!(
        pairing.step(PairingEvent::Begin),
        PairingAction::Advertise { timeout_secs: 300 }
    );
    assert_eq!(pairing.current(), PairingState::Advertising);
    assert_eq!(pairing.step(PairingEvent::CredentialsReceived), PairingAction::Validate);
    assert_eq!(pairing.current(), PairingState::Validating);
    assert_eq!(pairing.step(PairingEvent::Validated), PairingAction::Finish { saved: true });
    assert_eq!(pairing.current(), PairingState::Paired { saved: true });
    assert_eq!(pairing.cache_dir(), &Some("cache".to_string()));
}

#[test]
fn pairing_without_a_cache_finishes_unsaved() {
    let mut pairing = flow(None);
    assert_eq!(
        pairing.step(PairingEvent::Begin),
        PairingAction::Advertise { timeout_secs: 300 }
    );
    assert_eq!(
        pairing.step(PairingEvent::CredentialsReceived),
        PairingAction::Finish { saved: false }
    );
    assert_eq!(pairing.current(), PairingState::Paired { saved: false });
    assert_eq!(pairing.step(PairingEvent::Validated), PairingAction::Ignore);
}

#[test]
fn pairing_fails_with_authentication_failed() {
    let failed = PairingAction::Fail(ConnectError::AuthenticationFailed);

    let mut pairing = flow(Some("cache"));
    pairing.step(PairingEvent::Begin);
    assert_eq!(pairing.step(PairingEvent::TimedOut), failed);
    assert_eq!(pairing.current(), PairingState::Failed);

    let mut pairing = flow(None);
    pairing.step(PairingEvent::Begin);
    assert_eq!(pairing.step(PairingEvent::LaunchFailed), failed);
    assert_eq!(pairing.current(), PairingState::Failed);

    let mut pairing = flow(Some("cache"));
    pairing.step(PairingEvent::Begin);
    pairing.step(PairingEvent::CredentialsReceived);
    assert_eq!(pairing.step(PairingEvent::ValidationFailed), failed);
    assert_eq!(pairing.current(), PairingState::Failed);
    assert_eq!(pairing.step(PairingEvent::Begin), PairingAction::Ignore);
    assert_eq!(pairing.current(), PairingState::Failed);
}

#[test]
fn pairing_ignores_events_out_of_turn() {
    let mut pairing = flow(Some("cache"));
    assert_eq!(pairing.step(PairingEvent::CredentialsReceived), PairingAction::Ignore);
    assert_eq!(pairing.step(PairingEvent::TimedOut), PairingAction::Ignore);
    assert_eq!(pairing.current(), PairingState::Idle);
    pairing.step(PairingEvent::Begin);
    assert_eq!(pairing.step(PairingEvent::Begin), PairingAction::Ignore);
    assert_eq!(pairing.step(PairingEvent::Validated), PairingAction::Ignore);
    assert_eq!(pairing.current(), PairingState::Advertising);
}
