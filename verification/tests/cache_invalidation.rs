use tjxy_db::cache_invalidation::{
    instant_after, lease_token, plan_claim, plan_failure,
    validate_failure, validate_lease, CacheInvalidationRepositoryError, CacheInvalidationState,
    CacheInvalidationSystemClock, ClaimUpdate,
};

fn idle(processed: i64) -> CacheInvalidationState {
    CacheInvalidationState {
        processed_generation: processed,
        target_generation: None,
        attempt_count: 0,
        lease_owner: None,
        lease_expires_at: None,
        available_at: None,
        last_error: None,
    }
}

#[test]
fn leases_and_failures_are_validated() {
    assert_eq!(validate_lease("worker-1", 30), Ok(()));
    assert_eq!(validate_lease("  ", 30), Err(CacheInvalidationRepositoryError::EmptyLeaseOwner));
    assert_eq!(validate_lease(&"w".repeat(129), 30), Err(CacheInvalidationRepositoryError::LeaseOwnerTooLong));
    assert_eq!(validate_lease(&"w".repeat(128), 30), Ok(()));
    assert_eq!(validate_lease("w", 0), Err(CacheInvalidationRepositoryError::InvalidLeaseDuration));
    assert_eq!(validate_failure(0, "timeout"), Ok(()));
    assert_eq!(validate_failure(-1, "timeout"), Err(CacheInvalidationRepositoryError::InvalidBackoff));
    assert_eq!(validate_failure(5, ""), Err(CacheInvalidationRepositoryError::InvalidError));
    assert_eq!(validate_failure(5, &"e".repeat(257)), Err(CacheInvalidationRepositoryError::InvalidError));
    let _clock = CacheInvalidationSystemClock::default();
}

#[test]
fn nothing_is_claimed_when_caches_are_current() {
    let mut state = idle(4);
    assert!(state.claim(4, "t1", 100, 200).is_none());
    assert!(state.claim(3, "t1", 100, 200).is_none());
    assert_eq!(state.target_generation, None);
    assert_eq!(state.lease_owner, None);
}

#[test]
fn a_held_lease_excludes_other_claims_until_it_expires() {
    let mut state = idle(4);
    let claim = state.claim(6, "t1", 100, 200).unwrap();
    assert_eq!((claim.generation(), claim.attempt_count(), claim.lease_token()), (6, 0, "t1"));
    assert_eq!(claim.stale_generation(), 5);
    assert_eq!(state.target_generation, Some(6));
    assert!(state.claim(7, "t2", 150, 250).is_none());
    let taken_over = state.claim(7, "t2", 200, 300).unwrap();
    assert_eq!(taken_over.generation(), 6);
    assert_eq!(state.end_claim(&claim, 210, ClaimUpdate::Complete), Err(CacheInvalidationRepositoryError::LostLease));
    assert_eq!(state.target_generation, Some(6));
    assert_eq!(state.end_claim(&taken_over, 210, ClaimUpdate::Complete), Ok(()));
    assert_eq!(state.processed_generation, 6);
}

#[test]
fn completed_generations_are_not_claimed_again() {
    let mut state = idle(4);
    let claim = state.claim(6, "t1", 100, 200).unwrap();
    assert_eq!(state.end_claim(&claim, 150, ClaimUpdate::Complete), Ok(()));
    assert_eq!(state.processed_generation, 6);
    assert_eq!(state.target_generation, None);
    assert_eq!(state.lease_owner, None);
    assert!(state.claim(6, "t2", 160, 260).is_none());
    assert_eq!(state.claim(7, "t2", 160, 260).unwrap().generation(), 7);
}

#[test]
fn failed_attempts_are_counted_and_delayed() {
    let mut state = idle(0);
    let claim = state.claim(1, "t1", 100, 200).unwrap();
    let fail = ClaimUpdate::Fail { available_at: 500, error: "cache unreachable".to_string() };
    assert_eq!(state.end_claim(&claim, 150, fail), Ok(()));
    assert_eq!(state.attempt_count, 1);
    assert_eq!(state.available_at, Some(500));
    assert_eq!(state.last_error.as_deref(), Some("cache unreachable"));
    assert_eq!(state.target_generation, Some(1));
    assert!(state.claim(1, "t2", 499, 600).is_none());
    let retry = state.claim(1, "t2", 500, 600).unwrap();
    assert_eq!(retry.attempt_count(), 1);
    assert_eq!(state.end_claim(&retry, 550, ClaimUpdate::Release), Ok(()));
    assert_eq!((state.attempt_count, state.available_at, state.last_error.clone()), (1, None, None));
    assert_eq!(state.target_generation, Some(1));
}

#[test]
fn an_expired_lease_is_lost() {
    let mut state = idle(0);
    let claim = state.claim(1, "t1", 100, 200).unwrap();
    assert_eq!(state.end_claim(&claim, 200, ClaimUpdate::Complete), Err(CacheInvalidationRepositoryError::LostLease));
    assert_eq!(state.processed_generation, 0);
    assert_eq!(state.lease_owner.as_deref(), Some("t1"));
}

#[test]
fn lease_expiries_and_retry_times() {
    assert_eq!(instant_after(1_000, 500), Ok(1_500));
    assert_eq!(instant_after(1_000, -500), Ok(500));
    assert_eq!(instant_after(i64::MAX - 10, 100), Err(CacheInvalidationRepositoryError::TimestampOverflow));
    let max = chrono::DateTime::<chrono::Utc>::MAX_UTC.timestamp_micros();
    assert_eq!(instant_after(max, 0), Ok(max));
    assert_eq!(instant_after(max, 1), Err(CacheInvalidationRepositoryError::TimestampOverflow));
    assert_eq!(plan_claim("worker", 30_000_000, 1_000), Ok(30_001_000));
    assert_eq!(plan_claim(" ", 30_000_000, 1_000), Err(CacheInvalidationRepositoryError::EmptyLeaseOwner));
    assert_eq!(plan_claim("worker", 0, 1_000), Err(CacheInvalidationRepositoryError::InvalidLeaseDuration));
    assert_eq!(plan_claim("worker", 1, max), Err(CacheInvalidationRepositoryError::TimestampOverflow));
    assert_eq!(plan_failure(0, "down", 7), Ok(7));
    assert_eq!(plan_failure(-1, "down", 7), Err(CacheInvalidationRepositoryError::InvalidBackoff));
    assert_eq!(plan_failure(5, "", 7), Err(CacheInvalidationRepositoryError::InvalidError));
}

#[test]
fn lease_tokens_name_their_owner() {
    let token = lease_token("worker-1");
    let (owner, id) = token.split_once(':').unwrap();
    assert_eq!(owner, "worker-1");
    let parsed = uuid::Uuid::parse_str(id).unwrap();
    assert_eq!(parsed.to_string(), id);
    assert_eq!(parsed.get_version_num(), 4);
    assert_ne!(lease_token("worker-1"), token);
}
