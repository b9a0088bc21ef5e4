//! API keys: the application-name rule, the capacity limits, the actor fence of a new key,
//! and the checks on stored keys.
//!
//! Timestamps are microseconds since the Unix epoch.
use vstd::prelude::*;

verus! {

/// The most API keys the server keeps.
pub const MAX_API_KEYS: u16 = 256;
/// How many stored keys a startup listing reads: one more than the limit, to notice excess.
pub const STARTUP_API_KEY_QUERY_LIMIT: u64 = 257;
/// The longest application name, in characters.
pub const MAX_APP_NAME_CHARS: usize = 256;

#[derive(Clone, Copy, Debug, PartialEq, Eq, Structural)]
pub enum ApiKeyRepositoryError {
    ActorRejected,
    InvalidAppName,
    InvalidStoredAppName,
    InvalidStoredDigest,
    CapacityReached,
    StoredCapacityExceeded,
    MissingCapacityState,
    DuplicateCredential,
}

/// An application name is plain bounded text.
pub fn valid_app_name(value: &str) -> (r: bool)
    ensures
        r == crate::text::bounded_plain_text(value@, MAX_APP_NAME_CHARS as nat),
{
    crate::text::is_bounded_plain_text(value, MAX_APP_NAME_CHARS)
}

/// A key about to be created.
pub struct ApiKeyDraft {
    pub envelope_id: u128,
    pub creator_user_id: u128,
    pub creator_auth_revision: i64,
    pub token_digest: [u8; 32],
    pub app_name: String,
    pub created_at: i64,
}

/// The outcome of checking a new key against the acting administrator and the number of
/// keys already stored: the draft must be the actor's at its current revision, name an
/// acceptable application, and fit under `MAX_API_KEYS`.
pub open spec fn create_outcome(
    actor: crate::auth::AuthUser,
    creator_user_id: u128,
    creator_auth_revision: i64,
    app_name: Seq<char>,
    stored_count: i64,
) -> Result<(), ApiKeyRepositoryError> {
    if creator_user_id != actor.spec_id() || creator_auth_revision != actor.spec_auth_revision() {
        Err(ApiKeyRepositoryError::ActorRejected)
    } else if !crate::text::bounded_plain_text(app_name, MAX_APP_NAME_CHARS as nat) {
        Err(ApiKeyRepositoryError::InvalidAppName)
    } else if stored_count >= MAX_API_KEYS {
        Err(ApiKeyRepositoryError::CapacityReached)
    } else {
        Ok(())
    }
}

/// Checks a draft against its actor before the stored keys are counted.
pub fn check_draft(actor: &crate::auth::AuthUser, draft: &ApiKeyDraft) -> (r: Result<(), ApiKeyRepositoryError>)
    ensures
        r is Ok <==> create_outcome(*actor, draft.creator_user_id, draft.creator_auth_revision, draft.app_name@, 0) is Ok,
        r is Err ==> r == create_outcome(*actor, draft.creator_user_id, draft.creator_auth_revision, draft.app_name@, 0),
{
    if draft.creator_user_id != actor.id() || draft.creator_auth_revision != actor.auth_revision() {
        return Err(ApiKeyRepositoryError::ActorRejected);
    }
    if !valid_app_name(draft.app_name.as_str()) {
        return Err(ApiKeyRepositoryError::InvalidAppName);
    }
    Ok(())
}

/// Checks a draft against its actor and the number of keys already stored.
pub fn check_create(actor: &crate::auth::AuthUser, draft: &ApiKeyDraft, stored_count: i64) -> (r: Result<
    (),
    ApiKeyRepositoryError,
>)
    ensures
        r == create_outcome(*actor, draft.creator_user_id, draft.creator_auth_revision, draft.app_name@, stored_count),
{
    check_draft(actor, draft)?;
    if stored_count >= MAX_API_KEYS as i64 {
        return Err(ApiKeyRepositoryError::CapacityReached);
    }
    Ok(())
}

/// A startup listing holding more than `MAX_API_KEYS` keys is refused.
pub fn check_stored_capacity(stored: usize) -> (r: Result<(), ApiKeyRepositoryError>)
    ensures
        r is Ok <==> stored <= MAX_API_KEYS,
        r is Err ==> r == Err::<(), ApiKeyRepositoryError>(ApiKeyRepositoryError::StoredCapacityExceeded),
{
    if stored > MAX_API_KEYS as usize {
        Err(ApiKeyRepositoryError::StoredCapacityExceeded)
    } else {
        Ok(())
    }
}

/// A stored API key with its creator.
pub struct StoredApiKey {
    id: i64,
    envelope_id: u128,
    creator_user_id: u128,
    creator_user_name: String,
    creator_auth_revision: i64,
    token_digest: Vec<u8>,
    app_name: String,
    created_at: i64,
    last_used_at: Option<i64>,
}

impl StoredApiKey {
    /// Assembles a stored key: its digest must be 32 bytes and its application name
    /// acceptable (checked in that order).
    pub fn from_stored(
        id: i64,
        envelope_id: u128,
        creator_user_id: u128,
        creator_user_name: String,
        creator_auth_revision: i64,
        token_digest: Vec<u8>,
        app_name: String,
        created_at: i64,
        last_used_at: Option<i64>,
    ) -> (r: Result<Self, ApiKeyRepositoryError>)
        ensures
            match r {
                Ok(k) => token_digest@.len() == 32 && crate::text::bounded_plain_text(app_name@, MAX_APP_NAME_CHARS as nat)
                    && k.spec_id() == id && k.spec_envelope_id() == envelope_id && k.spec_creator_user_id()
                    == creator_user_id && k.spec_creator_user_name() == creator_user_name@
                    && k.spec_creator_auth_revision() == creator_auth_revision && k.spec_token_digest()
                    == token_digest@ && k.spec_app_name() == app_name@ && k.spec_created_at() == created_at
                    && k.spec_last_used_at() == last_used_at,
                Err(e) => if token_digest@.len() != 32 {
                    e == ApiKeyRepositoryError::InvalidStoredDigest
                } else {
                    !crate::text::bounded_plain_text(app_name@, MAX_APP_NAME_CHARS as nat) && e
                        == ApiKeyRepositoryError::InvalidStoredAppName
                },
            },
    {
        if token_digest.len() != 32 {
            return Err(ApiKeyRepositoryError::InvalidStoredDigest);
        }
        if !valid_app_name(app_name.as_str()) {
            return Err(ApiKeyRepositoryError::InvalidStoredAppName);
        }
        Ok(
            StoredApiKey {
                id,
                envelope_id,
                creator_user_id,
                creator_user_name,
                creator_auth_revision,
                token_digest,
                app_name,
                created_at,
                last_used_at,
            },
        )
    }

    pub closed spec fn spec_id(&self) -> i64 {
        self.id
    }

    pub closed spec fn spec_envelope_id(&self) -> u128 {
        self.envelope_id
    }

    pub closed spec fn spec_creator_user_id(&self) -> u128 {
        self.creator_user_id
    }

    pub closed spec fn spec_creator_user_name(&self) -> Seq<char> {
        self.creator_user_name@
    }

    pub closed spec fn spec_creator_auth_revision(&self) -> i64 {
        self.creator_auth_revision
    }

    pub closed spec fn spec_token_digest(&self) -> Seq<u8> {
        self.token_digest@
    }

    pub closed spec fn spec_app_name(&self) -> Seq<char> {
        self.app_name@
    }

    pub closed spec fn spec_created_at(&self) -> i64 {
        self.created_at
    }

    pub closed spec fn spec_last_used_at(&self) -> Option<i64> {
        self.last_used_at
    }

    pub fn id(&self) -> (r: i64)
        ensures
            r == self.spec_id(),
    {
        self.id
    }

    pub fn envelope_id(&self) -> (r: u128)
        ensures
            r == self.spec_envelope_id(),
    {
        self.envelope_id
    }

    pub fn creator_user_id(&self) -> (r: u128)
        ensures
            r == self.spec_creator_user_id(),
    {
        self.creator_user_id
    }

    pub fn creator_user_name(&self) -> (r: &str)
        ensures
            r@ == self.spec_creator_user_name(),
    {
        self.creator_user_name.as_str()
    }

    pub fn creator_auth_revision(&self) -> (r: i64)
        ensures
            r == self.spec_creator_auth_revision(),
    {
        self.creator_auth_revision
    }

    pub fn token_digest(&self) -> (r: &[u8])
        ensures
            r@ == self.spec_token_digest(),
    {
        self.token_digest.as_slice()
    }

    pub fn app_name(&self) -> (r: &str)
        ensures
            r@ == self.spec_app_name(),
    {
        self.app_name.as_str()
    }

    pub fn created_at(&self) -> (r: i64)
        ensures
            r == self.spec_created_at(),
    {
        self.created_at
    }

    pub fn last_used_at(&self) -> (r: Option<i64>)
        ensures
            r == self.spec_last_used_at(),
    {
        self.last_used_at
    }

}

} // verus!
