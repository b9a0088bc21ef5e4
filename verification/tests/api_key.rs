use tjxy_db::api_key::{
    check_create, check_draft, check_stored_capacity, valid_app_name, ApiKeyDraft, ApiKeyRepositoryError, StoredApiKey,
};
use tjxy_db::auth::AuthUser;

fn actor() -> AuthUser {
    AuthUser::from_stored(1, "admin".to_string(), true, true, None, 6)
}

fn draft(creator: u128, revision: i64, app_name: &str) -> ApiKeyDraft {
    ApiKeyDraft {
        envelope_id: 9,
        creator_user_id: creator,
        creator_auth_revision: revision,
        token_digest: [3u8; 32],
        app_name: app_name.to_string(),
        created_at: 10,
    }
}

#[test]
fn application_names() {
    assert!(valid_app_name("Kodi"));
    assert!(!valid_app_name("  "));
    assert!(!valid_app_name("a\u{0}"));
    assert!(valid_app_name(&"a".repeat(256)));
    assert!(!valid_app_name(&"a".repeat(257)));
}

#[test]
fn new_keys_are_fenced_by_their_actor_and_capacity() {
    assert_eq!(check_draft(&actor(), &draft(1, 6, "Kodi")), Ok(()));
    assert_eq!(check_create(&actor(), &draft(1, 6, "Kodi"), 255), Ok(()));
    assert_eq!(check_create(&actor(), &draft(1, 6, "Kodi"), 256), Err(ApiKeyRepositoryError::CapacityReached));
    assert_eq!(check_create(&actor(), &draft(2, 6, "Kodi"), 0), Err(ApiKeyRepositoryError::ActorRejected));
    assert_eq!(check_create(&actor(), &draft(1, 5, "Kodi"), 0), Err(ApiKeyRepositoryError::ActorRejected));
    assert_eq!(check_create(&actor(), &draft(1, 6, ""), 999), Err(ApiKeyRepositoryError::InvalidAppName));
    assert_eq!(check_draft(&actor(), &draft(1, 6, "")), Err(ApiKeyRepositoryError::InvalidAppName));
    assert_eq!(check_stored_capacity(256), Ok(()));
    assert_eq!(check_stored_capacity(257), Err(ApiKeyRepositoryError::StoredCapacityExceeded));
}

#[test]
fn stored_keys_are_checked() {
    let key = StoredApiKey::from_stored(4, 9, 1, "admin".to_string(), 6, vec![0u8; 32], "Kodi".to_string(), 10, Some(20))
        .unwrap();
    assert_eq!((key.id(), key.envelope_id(), key.creator_user_id(), key.app_name()), (4, 9, 1, "Kodi"));
    assert_eq!((key.token_digest().len(), key.created_at(), key.last_used_at()), (32, 10, Some(20)));
    assert_eq!(
        StoredApiKey::from_stored(4, 9, 1, "admin".to_string(), 6, vec![0u8; 31], "".to_string(), 10, None).map(|_| ()),
        Err(ApiKeyRepositoryError::InvalidStoredDigest)
    );
    assert_eq!(
        StoredApiKey::from_stored(4, 9, 1, "admin".to_string(), 6, vec![0u8; 32], " ".to_string(), 10, None).map(|_| ()),
        Err(ApiKeyRepositoryError::InvalidStoredAppName)
    );
}
