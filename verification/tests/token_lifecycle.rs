//! Expiry, refresh merging, the store's create/update semantics, and the
//! manager's per-invocation decision, driven end to end on concrete
//! values.

use playlist::auth::{SpotifyAccessToken, SpotifyRefreshToken};
use playlist::db::{
    is_expired, new_record, record_to_access_token, refreshed_record, CredentialStore,
    ClientCredentials, DBToken,
};
use playlist::errors::AuthError;
use playlist::manager::{TokenAction, TokenManager};

fn sample_token(time: u64, expires_in: i64) -> DBToken {
    DBToken {
        access_token: "AT0".to_string(),
        refresh_token: "RT0".to_string(),
        token_type: "Bearer".to_string(),
        scope: "x".to_string(),
        expires_in,
        time,
    }
}

fn auth_response() -> SpotifyAccessToken {
    SpotifyAccessToken {
        access_token: "AT1".to_string(),
        token_type: "Bearer".to_string(),
        scope: "x".to_string(),
        expires_in: 3600,
        refresh_token: "RT1".to_string(),
    }
}

fn refresh_response(new_refresh: Option<&str>) -> SpotifyRefreshToken {
    SpotifyRefreshToken {
        access_token: "AT2".to_string(),
        token_type: "Bearer".to_string(),
        scope: "y".to_string(),
        expires_in: 1800,
        refresh_token: new_refresh.map(|s| s.to_string()),
    }
}

#[test]
fn expiry_in_the_past_is_stale() {
    let t = sample_token(1_000, 3_600);
    assert!(is_expired(&t, 10_000));
}

#[test]
fn expiry_boundary_counts_as_stale() {
    let t = sample_token(1_000, 3_600);
    assert!(is_expired(&t, 4_600));
    assert!(!is_expired(&t, 4_599));
}

#[test]
fn token_issued_in_the_future_is_not_stale() {
    let t = sample_token(10_000, 3_600);
    assert!(!is_expired(&t, 5_000));
}

#[test]
fn negative_lifetime_expires_before_issue() {
    let t = sample_token(10_000, -4_000);
    assert!(is_expired(&t, 6_000));
    assert!(!is_expired(&t, 5_999));
    assert!(is_expired(&t, 10_000));
}

#[test]
fn extreme_lifetimes_do_not_wrap() {
    let far = sample_token(u64::MAX, i64::MAX);
    assert!(!is_expired(&far, u64::MAX));
    let past = sample_token(0, i64::MIN);
    assert!(is_expired(&past, 0));
}

#[test]
fn new_record_stamps_issue_moment() {
    let t = new_record(auth_response(), 7_777);
    assert_eq!(t.access_token, "AT1");
    assert_eq!(t.refresh_token, "RT1");
    assert_eq!(t.token_type, "Bearer");
    assert_eq!(t.scope, "x");
    assert_eq!(t.expires_in, 3600);
    assert_eq!(t.time, 7_777);
}

#[test]
fn refresh_without_new_token_preserves_refresh_token() {
    let old = sample_token(1_000, 3_600);
    let merged = refreshed_record(&old, refresh_response(None), 9_000);
    assert_eq!(merged.refresh_token, "RT0");
    assert_eq!(merged.access_token, "AT2");
    assert_eq!(merged.token_type, "Bearer");
    assert_eq!(merged.scope, "y");
    assert_eq!(merged.expires_in, 1800);
    assert_eq!(merged.time, 9_000);
}

#[test]
fn refresh_with_new_token_rotates_it() {
    let old = sample_token(1_000, 3_600);
    let merged = refreshed_record(&old, refresh_response(Some("RT9")), 9_000);
    assert_eq!(merged.refresh_token, "RT9");
    assert_eq!(merged.access_token, "AT2");
}

#[test]
fn record_projects_back_to_access_token() {
    let t = sample_token(1_000, 3_600);
    let res = record_to_access_token(&t);
    assert_eq!(res.access_token, "AT0");
    assert_eq!(res.refresh_token, "RT0");
    assert_eq!(res.token_type, "Bearer");
    assert_eq!(res.scope, "x");
    assert_eq!(res.expires_in, 3_600);
}

#[test]
fn store_create_fails_on_existing_record() {
    let mut store = CredentialStore::new();
    assert!(store.create_token(sample_token(1, 10)).is_ok());
    let second = store.create_token(sample_token(2, 20));
    assert_eq!(second, Err(AuthError::StorageError));
    let kept = store.get_token().unwrap();
    assert_eq!(kept.time, 1);
    assert_eq!(kept.expires_in, 10);
}

#[test]
fn store_update_without_record_fails() {
    let mut store = CredentialStore::new();
    let r = store.update_token(refresh_response(None), 5);
    assert_eq!(r, Err(AuthError::StorageError));
    assert!(store.get_token().is_none());
}

#[test]
fn store_keeps_credentials_and_token_apart() {
    let mut store = CredentialStore::new();
    store.set_credentials(ClientCredentials {
        client_id: "id".to_string(),
        secret: "secret".to_string(),
    });
    assert!(store.create_token(sample_token(1, 10)).is_ok());
    store.delete_credentials();
    assert!(store.get_credentials().is_none());
    assert!(store.get_token().is_some());
    store.delete_token();
    assert!(store.get_token().is_none());
}

#[test]
fn scenario_no_credentials_no_token_authorizes() {
    // No stored credentials and no stored token: the manager first asks
    // for credentials, then runs the authorization flow, and the
    // persisted record carries the fresh access token stamped at `now`.
    let now = 50_000;
    let mut manager = TokenManager::new(CredentialStore::new());
    assert!(matches!(
        manager.next_step(now),
        TokenAction::PromptCredentials
    ));
    manager.provide_credentials(ClientCredentials {
        client_id: "id".to_string(),
        secret: "secret".to_string(),
    });
    assert!(matches!(manager.next_step(now), TokenAction::RunAuthorization));
    let access = manager.complete_authorization(auth_response(), now).unwrap();
    assert_eq!(access, "AT1");
    let stored = manager.store.get_token().unwrap();
    assert_eq!(stored.access_token, "AT1");
    assert_eq!(stored.time, now);
    assert!(matches!(manager.next_step(now), TokenAction::UseStored { .. }));
}

#[test]
fn scenario_stale_token_refreshes_instead_of_reauthorizing() {
    let now = 100_000;
    let mut manager = TokenManager::new(CredentialStore::with_records(
        Some(ClientCredentials {
            client_id: "id".to_string(),
            secret: "secret".to_string(),
        }),
        Some(sample_token(now - 7_200, 3_600)),
    ));
    match manager.next_step(now) {
        TokenAction::RunRefresh { refresh_token } => assert_eq!(refresh_token, "RT0"),
        other => panic!("expected a refresh, got {:?}", other),
    }
    let access = manager.complete_refresh(refresh_response(None), now).unwrap();
    assert_eq!(access, "AT2");
    let stored = manager.store.get_token().unwrap();
    assert_eq!(stored.refresh_token, "RT0");
    assert_eq!(stored.time, now);
}

#[test]
fn scenario_fresh_token_is_used_without_any_flow() {
    let now = 100_000;
    let manager = TokenManager::new(CredentialStore::with_records(
        Some(ClientCredentials {
            client_id: "id".to_string(),
            secret: "secret".to_string(),
        }),
        Some(sample_token(now - 10, 3_600)),
    ));
    match manager.next_step(now) {
        TokenAction::UseStored { access_token } => assert_eq!(access_token, "AT0"),
        other => panic!("expected the stored token, got {:?}", other),
    }
    assert_eq!(manager.stored_access_token(now), Some("AT0".to_string()));
}

#[test]
fn scenario_failed_refresh_leaves_record_untouched() {
    // The refresh endpoint answers HTTP 400: the client surfaces
    // `AuthServerError` and never touches the stored record.
    let now = 100_000;
    let mut manager = TokenManager::new(CredentialStore::with_records(
        Some(ClientCredentials {
            client_id: "id".to_string(),
            secret: "secret".to_string(),
        }),
        Some(sample_token(now - 7_200, 3_600)),
    ));
    assert!(matches!(manager.next_step(now), TokenAction::RunRefresh { .. }));
    let outcome = playlist::errors::classify_status(400);
    assert_eq!(outcome, Err(AuthError::AuthServerError { status: 400 }));
    // The failure propagates; no update reaches the store.
    let stored = manager.store.get_token().unwrap();
    assert_eq!(stored.access_token, "AT0");
    assert_eq!(stored.refresh_token, "RT0");
    assert_eq!(stored.time, now - 7_200);
    // A later invocation would still choose to refresh, never to
    // re-authorize over the existing record.
    assert!(matches!(manager.next_step(now), TokenAction::RunRefresh { .. }));
    let denied = manager.complete_authorization(auth_response(), now);
    assert_eq!(denied, Err(AuthError::StorageError));
    assert_eq!(manager.store.get_token().unwrap().access_token, "AT0");
}

#[test]
fn logout_forgets_both_records() {
    let mut manager = TokenManager::new(CredentialStore::with_records(
        Some(ClientCredentials {
            client_id: "id".to_string(),
            secret: "secret".to_string(),
        }),
        Some(sample_token(1, 1)),
    ));
    manager.logout();
    assert!(manager.store.get_credentials().is_none());
    assert!(manager.store.get_token().is_none());
    assert!(matches!(manager.next_step(0), TokenAction::PromptCredentials));
}
