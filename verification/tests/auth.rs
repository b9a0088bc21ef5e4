use tjxy_db::auth::{
    bootstrap_outcome, check_user_unreferenced, fenced_write_outcome, user_insert_outcome, user_update_outcome,
    check_optional_password_hash, check_password_hash, check_revision_unchanged, check_revoke_reason,
    ensure_admin_remains, issued_session, resolve_session_principal, needs_activity_touch, policy_keeps_enabled_admin, sort_sessions,
    validate_session, AuthRepositoryError, AuthSessionRecord, AuthUser, AuthenticatedPrincipal, CredentialSnapshot,
    SessionDraft, ACTIVITY_REFRESH_MICROS,
};

fn draft() -> SessionDraft {
    SessionDraft {
        id: 5,
        token_digest: [7u8; 32],
        device_id: "device-1".to_string(),
        device_name: "Living room".to_string(),
        client_name: "Player".to_string(),
        client_version: "1.2.3".to_string(),
        created_at: 1_000,
        expires_at: Some(2_000),
    }
}

fn session(id: u128, created_at: i64, last_seen_at: Option<i64>) -> AuthSessionRecord {
    AuthSessionRecord::from_parts(
        id,
        1,
        "ann".to_string(),
        format!("d{id}"),
        "Device".to_string(),
        "Client".to_string(),
        "1".to_string(),
        created_at,
        last_seen_at,
        vec!["Video".to_string()],
        vec![],
        true,
        false,
    )
}

#[test]
fn users_and_credentials() {
    let stored = AuthUser::from_stored(3, "ann".to_string(), true, true, Some(99), 4);
    assert!(stored.is_disabled());
    assert_eq!((stored.id(), stored.name(), stored.is_admin(), stored.has_password(), stored.auth_revision()), (3, "ann", true, true, 4));
    let fresh = AuthUser::new_user(4, "bob".to_string(), false, false);
    assert!(!fresh.is_disabled());
    assert_eq!(fresh.auth_revision(), 0);
    let credential = CredentialSnapshot::from_parts(fresh, "$argon2id$hash".to_string());
    assert_eq!((credential.user().id(), credential.password_hash()), (4, "$argon2id$hash"));
    let issued = issued_session(&credential, &draft());
    assert_eq!((issued.id(), issued.user_id(), issued.expires_at()), (5, 4, Some(2_000)));
}

#[test]
fn session_drafts_are_validated() {
    assert_eq!(validate_session(&draft()), Ok(()));
    let mut d = draft();
    d.expires_at = None;
    assert_eq!(validate_session(&d), Ok(()));
    let mut d = draft();
    d.expires_at = Some(1_000);
    assert_eq!(validate_session(&d), Err(AuthRepositoryError::InvalidSessionExpiry));
    let mut d = draft();
    d.device_id = String::new();
    assert_eq!(validate_session(&d), Err(AuthRepositoryError::InvalidSessionMetadata));
    let mut d = draft();
    d.device_id = "x".repeat(513);
    assert_eq!(validate_session(&d), Err(AuthRepositoryError::InvalidSessionMetadata));
    let mut d = draft();
    d.device_id = "x".repeat(512);
    assert_eq!(validate_session(&d), Ok(()));
    let mut d = draft();
    d.client_version = "1\n2".to_string();
    d.expires_at = Some(0);
    assert_eq!(validate_session(&d), Err(AuthRepositoryError::InvalidSessionMetadata));
    let mut d = draft();
    d.client_version = "v".repeat(129);
    assert_eq!(validate_session(&d), Err(AuthRepositoryError::InvalidSessionMetadata));
    let mut d = draft();
    d.device_name = " ".to_string();
    assert_eq!(validate_session(&d), Ok(()));
}

#[test]
fn reasons_hashes_and_revisions() {
    assert_eq!(check_revoke_reason("signed out"), Ok(()));
    assert_eq!(check_revoke_reason(""), Err(AuthRepositoryError::InvalidRevokeReason));
    assert_eq!(check_revoke_reason(&"r".repeat(129)), Err(AuthRepositoryError::InvalidRevokeReason));
    assert_eq!(check_revoke_reason("a\tb"), Err(AuthRepositoryError::InvalidRevokeReason));
    assert_eq!(check_password_hash("h"), Ok(()));
    assert_eq!(check_password_hash(""), Err(AuthRepositoryError::EmptyPasswordHash));
    assert_eq!(check_optional_password_hash(None), Ok(()));
    assert_eq!(check_optional_password_hash(Some("")), Err(AuthRepositoryError::EmptyPasswordHash));
    assert_eq!(check_revision_unchanged(Some(3), 3), Ok(()));
    assert_eq!(check_revision_unchanged(Some(4), 3), Err(AuthRepositoryError::CredentialChanged));
    assert_eq!(check_revision_unchanged(None, 3), Err(AuthRepositoryError::CredentialChanged));
}

#[test]
fn the_last_enabled_administrator_remains() {
    let admin = AuthUser::new_user(1, "root".to_string(), true, true);
    assert_eq!(ensure_admin_remains(&admin, false, false), Err(AuthRepositoryError::LastEnabledAdmin));
    assert_eq!(ensure_admin_remains(&admin, false, true), Ok(()));
    assert_eq!(ensure_admin_remains(&admin, policy_keeps_enabled_admin(true, false), false), Ok(()));
    assert!(!policy_keeps_enabled_admin(true, true));
    let disabled_admin = AuthUser::from_stored(1, "root".to_string(), true, true, Some(1), 0);
    assert_eq!(ensure_admin_remains(&disabled_admin, false, false), Ok(()));
    let user = AuthUser::new_user(2, "bob".to_string(), true, false);
    assert_eq!(ensure_admin_remains(&user, false, false), Ok(()));
}

#[test]
fn activity_is_touched_after_the_refresh_interval() {
    let now = 1_000_000_000;
    assert!(!needs_activity_touch(false, now - ACTIVITY_REFRESH_MICROS, None, now));
    assert!(needs_activity_touch(false, now - ACTIVITY_REFRESH_MICROS - 1, None, now));
    assert!(!needs_activity_touch(false, 0, Some(now - 10), now));
    assert!(needs_activity_touch(false, now, Some(0), now));
    assert!(!needs_activity_touch(true, 0, None, now));
}

#[test]
fn principals_have_one_origin() {
    let user = AuthUser::new_user(1, "ann".to_string(), true, false);
    let by_session = AuthenticatedPrincipal::for_session(user, 8, "dev".to_string());
    assert_eq!((by_session.session_id(), by_session.device_id(), by_session.api_key_id()), (Some(8), Some("dev"), None));
    assert_eq!(by_session.user().id(), 1);
    let by_key = AuthenticatedPrincipal::for_api_key(AuthUser::new_user(2, "k".to_string(), false, false), 44);
    assert_eq!((by_key.session_id(), by_key.device_id(), by_key.api_key_id()), (None, None, Some(44)));
}

#[test]
fn sessions_are_listed_by_recent_activity_then_id() {
    let sessions = vec![
        session(1, 100, None),
        session(2, 50, Some(300)),
        session(3, 300, None),
        session(4, 200, Some(250)),
        session(5, 10, None),
    ];
    let listed: Vec<u128> = sort_sessions(sessions).iter().map(|s| s.id()).collect();
    assert_eq!(listed, vec![3, 2, 4, 1, 5]);
    let listed_ties: Vec<u128> = sort_sessions(vec![session(1, 5, None), session(1, 5, None), session(2, 5, None)])
        .iter()
        .map(|s| s.id())
        .collect();
    assert_eq!(listed_ties, vec![2, 1, 1]);
    assert!(sort_sessions(vec![]).is_empty());
    let s = session(9, 7, Some(8));
    assert_eq!((s.last_activity_at(), s.playable_media_types().len(), s.supports_media_control()), (8, 1, true));
}

#[test]
fn guarded_write_outcomes() {
    assert_eq!(user_update_outcome(false, 1), Ok(()));
    assert_eq!(user_update_outcome(true, 1), Err(AuthRepositoryError::UsernameConflict));
    assert_eq!(user_update_outcome(true, 0), Err(AuthRepositoryError::UsernameConflict));
    assert_eq!(user_update_outcome(false, 0), Err(AuthRepositoryError::UserNotFound));
    assert_eq!(user_insert_outcome(false), Ok(()));
    assert_eq!(user_insert_outcome(true), Err(AuthRepositoryError::UsernameConflict));
    assert_eq!(bootstrap_outcome(1), Ok(()));
    assert_eq!(bootstrap_outcome(0), Err(AuthRepositoryError::MissingBootstrapState));
    assert_eq!(check_user_unreferenced(false), Ok(()));
    assert_eq!(check_user_unreferenced(true), Err(AuthRepositoryError::UserReferenced));
    assert_eq!(fenced_write_outcome(1), Ok(()));
    assert_eq!(fenced_write_outcome(0), Err(AuthRepositoryError::CredentialChanged));
}

#[test]
fn sessions_resolve_only_for_enabled_users() {
    let now = 1_000_000_000_000;
    let enabled = AuthUser::new_user(4, "bob".to_string(), false, false);
    let (principal, touch) = resolve_session_principal(enabled, 7, "tv".to_string(), 0, None, now);
    let principal = principal.expect("enabled user resolves");
    assert_eq!(principal.user().id(), 4);
    assert_eq!(principal.session_id(), Some(7));
    assert_eq!(principal.device_id(), Some("tv"));
    assert!(touch);
    let (_, fresh) =
        resolve_session_principal(AuthUser::new_user(4, "bob".to_string(), false, false), 7, "tv".to_string(), 0, Some(now), now);
    assert!(!fresh);
    let disabled = AuthUser::from_stored(3, "ann".to_string(), true, true, Some(99), 4);
    let (none, touch) = resolve_session_principal(disabled, 7, "tv".to_string(), 0, None, now);
    assert!(none.is_none());
    assert!(!touch);
}
