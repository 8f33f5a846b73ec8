use chappaai::kubernetes::controller::{error_policy, Action, EventKind, State};
use chappaai::kubernetes::meta::ObjectMeta;
use chappaai::kubernetes::secrets::{Secret, SecretEntry};
use chappaai::oauth_connection::controller::{
    connected_step, disconnected_step, dispatch_phase, initializing_step, none_step,
    refresh_done_action, refresh_request, rollback_step, status_apply_changed, ConnectedStep,
};
use chappaai::oauth_connection::{
    CredentialOptions, OAuthConnection, OAuthConnectionPhase, OAuthConnectionSpec,
    OAuthConnectionStatus, SecretRef,
};
use chappaai::CredentialError;

fn connection(status: Option<OAuthConnectionStatus>) -> OAuthConnection {
    OAuthConnection {
        metadata: ObjectMeta { name: Some("c1".to_string()), namespace: None },
        spec: OAuthConnectionSpec {
            api: "a1".to_string(),
            scopes: Vec::new(),
            credentials: CredentialOptions::SecretRef(SecretRef {
                namespace: None,
                name: "creds".to_string(),
                id_key: "idKey".to_string(),
                secret_key: "secretKey".to_string(),
            }),
        },
        status,
    }
}

fn ok_creds() -> Result<(String, String), CredentialError> {
    Ok(("abc".to_string(), "xyz".to_string()))
}

fn bad_creds() -> Result<(String, String), CredentialError> {
    Err(CredentialError::MissingKey("idKey".to_string()))
}

fn connected_status(expires_at: Option<&str>) -> OAuthConnectionStatus {
    OAuthConnectionStatus {
        phase: Some(OAuthConnectionPhase::Connected),
        secret_name: Some("chappaai-c1".to_string()),
        expires_at: expires_at.map(|s| s.to_string()),
    }
}

#[test]
fn no_status_bootstraps_to_initializing_with_one_normal_event() {
    let conn = connection(None);
    assert_eq!(dispatch_phase(&conn), None);
    let out = none_step();
    let patch = out.status_patch.expect("a status patch");
    assert_eq!(patch.phase, Some(OAuthConnectionPhase::Initializing));
    assert!(patch.secret_name.is_none());
    assert!(patch.expires_at.is_none());
    assert_eq!(out.events.len(), 1);
    assert_eq!(out.events[0].kind, EventKind::Normal);
    assert_eq!(out.action, Action::AwaitChange);
}

#[test]
fn initializing_with_credentials_advances_to_disconnected_idempotently() {
    let first = initializing_step(&ok_creds());
    let second = initializing_step(&ok_creds());
    for out in [&first, &second] {
        let patch = out.status_patch.as_ref().expect("a status patch");
        assert_eq!(patch.phase, Some(OAuthConnectionPhase::Disconnected));
        assert_eq!(out.events.len(), 1);
        assert_eq!(out.events[0].kind, EventKind::Normal);
        assert_eq!(out.action, Action::Requeue(60));
    }
}

#[test]
fn initializing_without_credentials_warns_and_stays() {
    let out = initializing_step(&bad_creds());
    assert!(out.status_patch.is_none());
    assert_eq!(out.events.len(), 1);
    assert_eq!(out.events[0].kind, EventKind::Warning);
    assert_eq!(out.action, Action::Requeue(60));
}

#[test]
fn disconnected_with_credentials_does_nothing() {
    let out = disconnected_step(&ok_creds());
    assert!(out.status_patch.is_none());
    assert!(out.events.is_empty());
    assert_eq!(out.action, Action::Requeue(60));
}

#[test]
fn disconnected_without_credentials_falls_back_to_initializing() {
    let out = disconnected_step(&bad_creds());
    let patch = out.status_patch.expect("a status patch");
    assert_eq!(patch.phase, Some(OAuthConnectionPhase::Initializing));
    assert_eq!(out.events.len(), 1);
    assert_eq!(out.events[0].kind, EventKind::Warning);
    assert_eq!(out.action, Action::Requeue(60));
}

#[test]
fn connected_with_over_three_hours_left_waits_an_hour() {
    // 1970-01-01T03:00:00+00:00 is 10800 seconds after the epoch.
    let conn = connection(Some(connected_status(Some("1970-01-01T03:00:00+00:00"))));
    assert_eq!(connected_step(&conn, 0), ConnectedStep::Wait(Action::Requeue(3600)));
}

#[test]
fn connected_within_three_hours_attempts_refresh() {
    let conn = connection(Some(connected_status(Some("1970-01-01T03:00:00+00:00"))));
    assert_eq!(connected_step(&conn, 1), ConnectedStep::Refresh);
    // Already expired: still a refresh attempt.
    assert_eq!(connected_step(&conn, 20000), ConnectedStep::Refresh);
}

#[test]
fn connected_without_expiry_retries_in_a_minute() {
    let mut status = connected_status(None);
    status.expires_at = None;
    let conn = connection(Some(status));
    assert_eq!(connected_step(&conn, 0), ConnectedStep::Wait(Action::Requeue(60)));
}

#[test]
fn connected_with_unparseable_expiry_retries_in_a_minute() {
    let conn = connection(Some(connected_status(Some("not-a-date"))));
    assert_eq!(connected_step(&conn, 0), ConnectedStep::Wait(Action::Requeue(60)));
}

#[test]
fn connected_without_status_rolls_back() {
    let conn = connection(None);
    assert_eq!(connected_step(&conn, 0), ConnectedStep::RollBack);
}

#[test]
fn rollback_after_successful_delete_patches_disconnected() {
    let out = rollback_step(true);
    let patch = out.status_patch.expect("a status patch");
    assert_eq!(patch.phase, Some(OAuthConnectionPhase::Disconnected));
    assert_eq!(out.events.len(), 1);
    assert_eq!(out.events[0].kind, EventKind::Warning);
    assert_eq!(out.action, Action::Requeue(60));
}

#[test]
fn rollback_after_failed_delete_retries_in_five_minutes() {
    let out = rollback_step(false);
    assert!(out.status_patch.is_none());
    assert_eq!(out.events.len(), 1);
    assert_eq!(out.events[0].kind, EventKind::Warning);
    assert_eq!(out.action, Action::Requeue(300));
}

#[test]
fn refresh_request_hands_out_the_stored_token() {
    let secret = Secret {
        data: Some(vec![
            SecretEntry { key: "accessToken".to_string(), value: b"tok".to_vec() },
            SecretEntry { key: "refreshToken".to_string(), value: b"refresh-me".to_vec() },
        ]),
    };
    assert_eq!(refresh_request(&secret), Some("refresh-me".to_string()));
    let without = Secret {
        data: Some(vec![SecretEntry { key: "accessToken".to_string(), value: b"tok".to_vec() }]),
    };
    assert_eq!(refresh_request(&without), None);
}

#[test]
fn refresh_outcome_requeues_an_hour_either_way() {
    assert_eq!(refresh_done_action(true), Action::Requeue(3600));
    assert_eq!(refresh_done_action(false), Action::Requeue(3600));
}

#[test]
fn reapplying_an_identical_status_patch_changes_nothing() {
    let stored = connected_status(Some("1970-01-01T03:00:00+00:00"));
    let patch = connected_status(Some("1970-01-01T03:00:00+00:00"));
    // First application over an empty status is a change.
    assert!(status_apply_changed(&None, &patch));
    // Re-applying the same field values converges: no observable change.
    assert!(!status_apply_changed(&Some(stored), &patch));
    // A differing field is a change again.
    let other = connected_status(Some("1970-01-01T04:00:00+00:00"));
    assert!(status_apply_changed(&Some(other), &patch));
}

#[test]
fn error_policy_retries_after_five_minutes() {
    assert_eq!(error_policy(), Action::Requeue(300));
}

#[test]
fn controller_state_tracks_reporter_and_clock() {
    let mut s = State::new("oauth-apis".to_string(), 7);
    assert_eq!(s.reporter, "chappai-oauth-apis-controller");
    assert_eq!(s.last_event, 7);
    s.record_event(9);
    assert_eq!(s.last_event, 9);
}
