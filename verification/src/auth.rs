//! Local accounts and sessions: the rules on session metadata and revoke reasons, password
//! hash presence, the last-administrator guard, activity refresh, principals, and the order
//! in which active sessions are listed.
//!
//! Timestamps are microseconds since the Unix epoch.
use vstd::prelude::*;

verus! {

/// How long a session's recorded activity may lag before it is refreshed.
pub const ACTIVITY_REFRESH_MICROS: i64 = 180000000;

#[derive(Clone, Copy, Debug, PartialEq, Eq, Structural)]
pub enum AuthRepositoryError {
    EmptyPasswordHash,
    InvalidSessionMetadata,
    InvalidSessionExpiry,
    InvalidRevokeReason,
    InvalidStoredSessionCapabilities,
    CredentialChanged,
    UserNotFound,
    LastEnabledAdmin,
    UserReferenced,
    UsernameConflict,
    MissingBootstrapState,
}

/// A local user as authentication sees it.
pub struct AuthUser {
    id: u128,
    name: String,
    is_admin: bool,
    has_password: bool,
    is_disabled: bool,
    auth_revision: i64,
}

impl AuthUser {
    /// A stored user; it is disabled when it has a disable time.
    pub fn from_stored(
        id: u128,
        name: String,
        is_admin: bool,
        has_password: bool,
        disabled_at: Option<i64>,
        auth_revision: i64,
    ) -> (r: Self)
        ensures
            r.spec_id() == id && r.spec_name() == name@ && r.spec_is_admin() == is_admin
                && r.spec_has_password() == has_password && r.spec_is_disabled() == disabled_at is Some
                && r.spec_auth_revision() == auth_revision,
    {
        AuthUser { id, name, is_admin, has_password, is_disabled: disabled_at.is_some(), auth_revision }
    }

    /// A newly created user: enabled, at authentication revision 0.
    pub fn new_user(id: u128, name: String, has_password: bool, is_admin: bool) -> (r: Self)
        ensures
            r.spec_id() == id && r.spec_name() == name@ && r.spec_is_admin() == is_admin
                && r.spec_has_password() == has_password && !r.spec_is_disabled()
                && r.spec_auth_revision() == 0,
    {
        AuthUser { id, name, is_admin, has_password, is_disabled: false, auth_revision: 0 }
    }

    pub closed spec fn spec_id(&self) -> u128 {
        self.id
    }

    pub closed spec fn spec_name(&self) -> Seq<char> {
        self.name@
    }

    pub closed spec fn spec_is_admin(&self) -> bool {
        self.is_admin
    }

    pub closed spec fn spec_has_password(&self) -> bool {
        self.has_password
    }

    pub closed spec fn spec_is_disabled(&self) -> bool {
        self.is_disabled
    }

    pub closed spec fn spec_auth_revision(&self) -> i64 {
        self.auth_revision
    }

    pub fn id(&self) -> (r: u128)
        ensures
            r == self.spec_id(),
    {
        self.id
    }

    pub fn name(&self) -> (r: &str)
        ensures
            r@ == self.spec_name(),
    {
        self.name.as_str()
    }

    pub fn is_admin(&self) -> (r: bool)
        ensures
            r == self.spec_is_admin(),
    {
        self.is_admin
    }

    pub fn has_password(&self) -> (r: bool)
        ensures
            r == self.spec_has_password(),
    {
        self.has_password
    }

    pub fn is_disabled(&self) -> (r: bool)
        ensures
            r == self.spec_is_disabled(),
    {
        self.is_disabled
    }

    pub fn auth_revision(&self) -> (r: i64)
        ensures
            r == self.spec_auth_revision(),
    {
        self.auth_revision
    }

}

/// A user with the password hash it signs in with.
pub struct CredentialSnapshot {
    user: AuthUser,
    password_hash: String,
}

impl CredentialSnapshot {
    pub closed spec fn spec_user(&self) -> AuthUser {
        self.user
    }

    pub closed spec fn spec_password_hash(&self) -> Seq<char> {
        self.password_hash@
    }

    /// Assembles the value from its parts.
    pub fn from_parts(user: AuthUser, password_hash: String) -> (r: Self)
        ensures
            r.spec_user() == user,
            r.spec_password_hash() == password_hash@,
    {
        CredentialSnapshot { user, password_hash }
    }

    pub fn user(&self) -> (r: &AuthUser)
        ensures
            *r == self.spec_user(),
    {
        &self.user
    }

    pub fn password_hash(&self) -> (r: &str)
        ensures
            r@ == self.spec_password_hash(),
    {
        self.password_hash.as_str()
    }

}

/// A session that was issued.
pub struct IssuedSession {
    id: u128,
    user_id: u128,
    expires_at: Option<i64>,
}

impl IssuedSession {
    pub closed spec fn spec_id(&self) -> u128 {
        self.id
    }

    pub closed spec fn spec_user_id(&self) -> u128 {
        self.user_id
    }

    pub closed spec fn spec_expires_at(&self) -> Option<i64> {
        self.expires_at
    }

    /// Assembles the value from its parts.
    pub fn from_parts(id: u128, user_id: u128, expires_at: Option<i64>) -> (r: Self)
        ensures
            r.spec_id() == id,
            r.spec_user_id() == user_id,
            r.spec_expires_at() == expires_at,
    {
        IssuedSession { id, user_id, expires_at }
    }

    pub fn id(&self) -> (r: u128)
        ensures
            r == self.spec_id(),
    {
        self.id
    }

    pub fn user_id(&self) -> (r: u128)
        ensures
            r == self.spec_user_id(),
    {
        self.user_id
    }

    pub fn expires_at(&self) -> (r: Option<i64>)
        ensures
            r == self.spec_expires_at(),
    {
        self.expires_at
    }

}

/// An active session as listed.
pub struct AuthSessionRecord {
    id: u128,
    user_id: u128,
    user_name: String,
    device_id: String,
    device_name: String,
    client_name: String,
    client_version: String,
    created_at: i64,
    last_seen_at: Option<i64>,
    playable_media_types: Vec<String>,
    supported_commands: Vec<String>,
    supports_media_control: bool,
    supports_persistent_identifier: bool,
}

impl AuthSessionRecord {
    /// The last activity: the last time seen, or the creation time.
    pub open spec fn spec_last_activity_at(&self) -> i64 {
        match self.spec_last_seen_at() {
            Some(t) => t,
            None => self.spec_created_at(),
        }
    }

    pub fn last_activity_at(&self) -> (r: i64)
        ensures
            r == self.spec_last_activity_at(),
    {
        match self.last_seen_at {
            Some(t) => t,
            None => self.created_at,
        }
    }

    pub closed spec fn spec_id(&self) -> u128 {
        self.id
    }

    pub closed spec fn spec_user_id(&self) -> u128 {
        self.user_id
    }

    pub closed spec fn spec_user_name(&self) -> Seq<char> {
        self.user_name@
    }

    pub closed spec fn spec_device_id(&self) -> Seq<char> {
        self.device_id@
    }

    pub closed spec fn spec_device_name(&self) -> Seq<char> {
        self.device_name@
    }

    pub closed spec fn spec_client_name(&self) -> Seq<char> {
        self.client_name@
    }

    pub closed spec fn spec_client_version(&self) -> Seq<char> {
        self.client_version@
    }

    pub closed spec fn spec_created_at(&self) -> i64 {
        self.created_at
    }

    pub closed spec fn spec_last_seen_at(&self) -> Option<i64> {
        self.last_seen_at
    }

    pub closed spec fn spec_playable_media_types(&self) -> Seq<String> {
        self.playable_media_types@
    }

    pub closed spec fn spec_supported_commands(&self) -> Seq<String> {
        self.supported_commands@
    }

    pub closed spec fn spec_supports_media_control(&self) -> bool {
        self.supports_media_control
    }

    pub closed spec fn spec_supports_persistent_identifier(&self) -> bool {
        self.supports_persistent_identifier
    }

    /// Assembles the value from its parts.
    pub fn from_parts(id: u128, user_id: u128, user_name: String, device_id: String, device_name: String, client_name: String, client_version: String, created_at: i64, last_seen_at: Option<i64>, playable_media_types: Vec<String>, supported_commands: Vec<String>, supports_media_control: bool, supports_persistent_identifier: bool) -> (r: Self)
        ensures
            r.spec_id() == id,
            r.spec_user_id() == user_id,
            r.spec_user_name() == user_name@,
            r.spec_device_id() == device_id@,
            r.spec_device_name() == device_name@,
            r.spec_client_name() == client_name@,
            r.spec_client_version() == client_version@,
            r.spec_created_at() == created_at,
            r.spec_last_seen_at() == last_seen_at,
            r.spec_playable_media_types() == playable_media_types@,
            r.spec_supported_commands() == supported_commands@,
            r.spec_supports_media_control() == supports_media_control,
            r.spec_supports_persistent_identifier() == supports_persistent_identifier,
    {
        AuthSessionRecord { id, user_id, user_name, device_id, device_name, client_name, client_version, created_at, last_seen_at, playable_media_types, supported_commands, supports_media_control, supports_persistent_identifier }
    }

    pub fn id(&self) -> (r: u128)
        ensures
            r == self.spec_id(),
    {
        self.id
    }

    pub fn user_id(&self) -> (r: u128)
        ensures
            r == self.spec_user_id(),
    {
        self.user_id
    }

    pub fn user_name(&self) -> (r: &str)
        ensures
            r@ == self.spec_user_name(),
    {
        self.user_name.as_str()
    }

    pub fn device_id(&self) -> (r: &str)
        ensures
            r@ == self.spec_device_id(),
    {
        self.device_id.as_str()
    }

    pub fn device_name(&self) -> (r: &str)
        ensures
            r@ == self.spec_device_name(),
    {
        self.device_name.as_str()
    }

    pub fn client_name(&self) -> (r: &str)
        ensures
            r@ == self.spec_client_name(),
    {
        self.client_name.as_str()
    }

    pub fn client_version(&self) -> (r: &str)
        ensures
            r@ == self.spec_client_version(),
    {
        self.client_version.as_str()
    }

    pub fn created_at(&self) -> (r: i64)
        ensures
            r == self.spec_created_at(),
    {
        self.created_at
    }

    pub fn last_seen_at(&self) -> (r: Option<i64>)
        ensures
            r == self.spec_last_seen_at(),
    {
        self.last_seen_at
    }

    pub fn playable_media_types(&self) -> (r: &[String])
        ensures
            r@ == self.spec_playable_media_types(),
    {
        self.playable_media_types.as_slice()
    }

    pub fn supported_commands(&self) -> (r: &[String])
        ensures
            r@ == self.spec_supported_commands(),
    {
        self.supported_commands.as_slice()
    }

    pub fn supports_media_control(&self) -> (r: bool)
        ensures
            r == self.spec_supports_media_control(),
    {
        self.supports_media_control
    }

    pub fn supports_persistent_identifier(&self) -> (r: bool)
        ensures
            r == self.spec_supports_persistent_identifier(),
    {
        self.supports_persistent_identifier
    }

}

/// A session about to be issued.
pub struct SessionDraft {
    pub id: u128,
    pub token_digest: [u8; 32],
    pub device_id: String,
    pub device_name: String,
    pub client_name: String,
    pub client_version: String,
    pub created_at: i64,
    pub expires_at: Option<i64>,
}

/// Session metadata text: not empty, at most `max` characters, no control character.
pub open spec fn metadata_text(s: Seq<char>, max: nat) -> bool {
    s.len() > 0 && s.len() <= max && !crate::text::has_control(s)
}

fn check_metadata_text(value: &str, max: usize) -> (r: bool)
    ensures
        r == metadata_text(value@, max as nat),
{
    let chars = crate::text::chars_of(value);
    chars.len() > 0 && chars.len() <= max && !crate::text::contains_control(chars.as_slice())
}

/// The outcome of checking a session draft: its device id (512), device name (256),
/// client name (256) and client version (128) are metadata text of at most that many
/// characters, and an expiry lies after the creation time.
pub open spec fn session_outcome(s: SessionDraft) -> Result<(), AuthRepositoryError> {
    if !metadata_text(s.device_id@, 512) || !metadata_text(s.device_name@, 256) || !metadata_text(
        s.client_name@,
        256,
    ) || !metadata_text(s.client_version@, 128) {
        Err(AuthRepositoryError::InvalidSessionMetadata)
    } else if s.expires_at matches Some(e) && e <= s.created_at {
        Err(AuthRepositoryError::InvalidSessionExpiry)
    } else {
        Ok(())
    }
}

pub fn validate_session(session: &SessionDraft) -> (r: Result<(), AuthRepositoryError>)
    ensures
        r == session_outcome(*session),
{
    if !check_metadata_text(session.device_id.as_str(), 512) || !check_metadata_text(
        session.device_name.as_str(),
        256,
    ) || !check_metadata_text(session.client_name.as_str(), 256) || !check_metadata_text(
        session.client_version.as_str(),
        128,
    ) {
        return Err(AuthRepositoryError::InvalidSessionMetadata);
    }
    match session.expires_at {
        Some(e) => if e <= session.created_at {
            return Err(AuthRepositoryError::InvalidSessionExpiry);
        },
        None => {},
    }
    Ok(())
}

/// The session issued for a credential from a valid draft.
pub fn issued_session(credential: &CredentialSnapshot, session: &SessionDraft) -> (r: IssuedSession)
    ensures
        r.spec_id() == session.id && r.spec_user_id() == credential.spec_user().spec_id()
            && r.spec_expires_at() == session.expires_at,
{
    IssuedSession::from_parts(session.id, credential.user.id, session.expires_at)
}

/// A revoke reason: not empty, at most 128 characters, no control character.
pub fn check_revoke_reason(reason: &str) -> (r: Result<(), AuthRepositoryError>)
    ensures
        r is Ok <==> metadata_text(reason@, 128),
        r is Err ==> r == Err::<(), AuthRepositoryError>(AuthRepositoryError::InvalidRevokeReason),
{
    if !check_metadata_text(reason, 128) {
        Err(AuthRepositoryError::InvalidRevokeReason)
    } else {
        Ok(())
    }
}

/// A password hash is never stored empty.
pub fn check_password_hash(password_hash: &str) -> (r: Result<(), AuthRepositoryError>)
    ensures
        r is Ok <==> password_hash@.len() > 0,
        r is Err ==> r == Err::<(), AuthRepositoryError>(AuthRepositoryError::EmptyPasswordHash),
{
    if crate::text::chars_of(password_hash).len() == 0 {
        Err(AuthRepositoryError::EmptyPasswordHash)
    } else {
        Ok(())
    }
}

/// An account update may leave the password unchanged, but never sets it empty.
pub fn check_optional_password_hash(password_hash: Option<&str>) -> (r: Result<(), AuthRepositoryError>)
    ensures
        r is Ok <==> !(password_hash matches Some(h) && h@.len() == 0),
        r is Err ==> r == Err::<(), AuthRepositoryError>(AuthRepositoryError::EmptyPasswordHash),
{
    match password_hash {
        Some(h) => check_password_hash(h),
        None => Ok(()),
    }
}

/// An enabled administrator that stops being one is refused when no other enabled
/// administrator exists.
pub open spec fn admin_guard(current: AuthUser, remains_enabled_admin: bool, has_other_enabled_admin: bool) -> Result<
    (),
    AuthRepositoryError,
> {
    if current.spec_is_admin() && !current.spec_is_disabled() && !remains_enabled_admin
        && !has_other_enabled_admin {
        Err(AuthRepositoryError::LastEnabledAdmin)
    } else {
        Ok(())
    }
}

pub fn ensure_admin_remains(current: &AuthUser, remains_enabled_admin: bool, has_other_enabled_admin: bool) -> (r: Result<
    (),
    AuthRepositoryError,
>)
    ensures
        r == admin_guard(*current, remains_enabled_admin, has_other_enabled_admin),
{
    if current.is_admin && !current.is_disabled && !remains_enabled_admin && !has_other_enabled_admin {
        Err(AuthRepositoryError::LastEnabledAdmin)
    } else {
        Ok(())
    }
}

/// A policy keeps a user an enabled administrator when it grants admin and does not
/// disable.
pub fn policy_keeps_enabled_admin(is_admin: bool, is_disabled: bool) -> (r: bool)
    ensures
        r == (is_admin && !is_disabled),
{
    is_admin && !is_disabled
}

/// An account may be changed only at the authentication revision it was read at.
pub fn check_revision_unchanged(current: Option<i64>, expected: i64) -> (r: Result<(), AuthRepositoryError>)
    ensures
        r is Ok <==> current == Some(expected),
        r is Err ==> r == Err::<(), AuthRepositoryError>(AuthRepositoryError::CredentialChanged),
{
    match current {
        Some(c) => if c == expected {
            Ok(())
        } else {
            Err(AuthRepositoryError::CredentialChanged)
        },
        None => Err(AuthRepositoryError::CredentialChanged),
    }
}

/// The recorded activity of a session is refreshed when its user is enabled and it lags
/// more than `ACTIVITY_REFRESH_MICROS` behind `now`.
pub open spec fn activity_stale(is_disabled: bool, created_at: i64, last_seen_at: Option<i64>, now: i64) -> bool {
    let last = match last_seen_at {
        Some(t) => t,
        None => created_at,
    };
    !is_disabled && last < now - ACTIVITY_REFRESH_MICROS
}

pub fn needs_activity_touch(is_disabled: bool, created_at: i64, last_seen_at: Option<i64>, now: i64) -> (r: bool)
    requires
        now >= i64::MIN + ACTIVITY_REFRESH_MICROS,
    ensures
        r == activity_stale(is_disabled, created_at, last_seen_at, now),
{
    let last = match last_seen_at {
        Some(t) => t,
        None => created_at,
    };
    !is_disabled && last < now - ACTIVITY_REFRESH_MICROS
}

/// How a principal authenticated.
#[allow(inconsistent_fields)]
pub enum AuthenticationOrigin {
    Session { id: u128, device_id: String },
    ApiKey { id: i64 },
}

/// An authenticated user and how it authenticated.
pub struct AuthenticatedPrincipal {
    user: AuthUser,
    origin: AuthenticationOrigin,
}

impl AuthenticatedPrincipal {
    pub closed spec fn spec_user(&self) -> AuthUser {
        self.user
    }

    pub closed spec fn spec_session(&self) -> Option<(u128, Seq<char>)> {
        match self.origin {
            AuthenticationOrigin::Session { id, device_id } => Some((id, device_id@)),
            AuthenticationOrigin::ApiKey { .. } => None,
        }
    }

    pub closed spec fn spec_api_key(&self) -> Option<i64> {
        match self.origin {
            AuthenticationOrigin::Session { .. } => None,
            AuthenticationOrigin::ApiKey { id } => Some(id),
        }
    }

    pub fn for_session(user: AuthUser, id: u128, device_id: String) -> (r: Self)
        ensures
            r.spec_user() == user && r.spec_session() == Some((id, device_id@)) && r.spec_api_key()
                is None,
    {
        AuthenticatedPrincipal { user, origin: AuthenticationOrigin::Session { id, device_id } }
    }

    pub fn for_api_key(user: AuthUser, id: i64) -> (r: Self)
        ensures
            r.spec_user() == user && r.spec_session() is None && r.spec_api_key() == Some(id),
    {
        AuthenticatedPrincipal { user, origin: AuthenticationOrigin::ApiKey { id } }
    }

    pub fn user(&self) -> (r: &AuthUser)
        ensures
            *r == self.spec_user(),
    {
        &self.user
    }

    pub fn session_id(&self) -> (r: Option<u128>)
        ensures
            r == (match self.spec_session() {
                Some((id, _)) => Some(id),
                None => None,
            }),
    {
        match &self.origin {
            AuthenticationOrigin::Session { id, .. } => Some(*id),
            AuthenticationOrigin::ApiKey { .. } => None,
        }
    }

    pub fn device_id(&self) -> (r: Option<&str>)
        ensures
            crate::text::opt_str_view(r) == (match self.spec_session() {
                Some((_, d)) => Some(d),
                None => None,
            }),
    {
        match &self.origin {
            AuthenticationOrigin::Session { device_id, .. } => Some(device_id.as_str()),
            AuthenticationOrigin::ApiKey { .. } => None,
        }
    }

    pub fn api_key_id(&self) -> (r: Option<i64>)
        ensures
            r == self.spec_api_key(),
    {
        match &self.origin {
            AuthenticationOrigin::Session { .. } => None,
            AuthenticationOrigin::ApiKey { id } => Some(*id),
        }
    }
}

/// A principal comes from exactly one of a session and an API key.
pub proof fn principal_has_one_origin(p: AuthenticatedPrincipal)
    ensures
        p.spec_session() is Some <==> p.spec_api_key() is None,
{
}

// ---------------------------------------------------------------------------------------
// Listing order: most recent activity first, then the greater id first; sessions with the
// same key keep their order.

/// The listing key of a session.
pub open spec fn session_key(s: AuthSessionRecord) -> (i64, u128) {
    (s.spec_last_activity_at(), s.spec_id())
}

/// `a` lists no later than `b`.
pub open spec fn key_at_least(a: (i64, u128), b: (i64, u128)) -> bool {
    a.0 > b.0 || (a.0 == b.0 && a.1 >= b.1)
}

/// Inserts `x` after the trailing run of sessions that list no later than it.
pub open spec fn insert_session(sorted: Seq<AuthSessionRecord>, x: AuthSessionRecord) -> Seq<AuthSessionRecord>
    decreases sorted.len(),
{
    if sorted.len() == 0 {
        seq![x]
    } else if key_at_least(session_key(sorted.last()), session_key(x)) {
        sorted.push(x)
    } else {
        insert_session(sorted.drop_last(), x).push(sorted.last())
    }
}

/// The listing of sessions: each one inserted in turn, stable for equal keys.
pub open spec fn session_listing(s: Seq<AuthSessionRecord>) -> Seq<AuthSessionRecord>
    decreases s.len(),
{
    if s.len() == 0 {
        Seq::empty()
    } else {
        insert_session(session_listing(s.drop_last()), s.last())
    }
}

/// Every session lists no later than the ones after it.
pub open spec fn listed_in_order(s: Seq<AuthSessionRecord>) -> bool {
    forall|a: int, b: int|
        0 <= a < b < s.len() ==> key_at_least(session_key(#[trigger] s[a]), session_key(#[trigger] s[b]))
}

proof fn lemma_insert_session_at(sorted: Seq<AuthSessionRecord>, x: AuthSessionRecord, p: int)
    requires
        0 <= p <= sorted.len(),
        p == 0 || key_at_least(session_key(sorted[p - 1]), session_key(x)),
        forall|q: int| p <= q < sorted.len() ==> !key_at_least(session_key(#[trigger] sorted[q]), session_key(x)),
    ensures
        insert_session(sorted, x) == sorted.take(p).push(x) + sorted.skip(p),
    decreases sorted.len(),
{
    if sorted.len() == 0 {
        assert(sorted.take(p).push(x) + sorted.skip(p) =~= seq![x]);
    } else if p == sorted.len() {
        assert(sorted.take(p).push(x) + sorted.skip(p) =~= sorted.push(x));
    } else {
        assert(!key_at_least(session_key(sorted[sorted.len() - 1]), session_key(x)));
        lemma_insert_session_at(sorted.drop_last(), x, p);
        assert(sorted.drop_last().take(p).push(x) + sorted.drop_last().skip(p) + seq![sorted.last()]
            =~= sorted.take(p).push(x) + sorted.skip(p));
    }
}

/// Sorts active sessions for listing: most recent activity first, then the greater id
/// first, sessions with equal keys in the order given.
pub fn sort_sessions(sessions: Vec<AuthSessionRecord>) -> (r: Vec<AuthSessionRecord>)
    ensures
        r@ == session_listing(sessions@),
        listed_in_order(r@),
        r@.to_multiset() == sessions@.to_multiset(),
{
    broadcast use vstd::seq_lib::group_to_multiset_ensures;

    let ghost given = sessions@;
    let mut rest = sessions;
    let mut out: Vec<AuthSessionRecord> = Vec::new();
    let ghost mut taken: nat = 0;
    while rest.len() > 0
        invariant
            taken + rest@.len() == given.len(),
            rest@ == given.skip(taken as int),
            out@ == session_listing(given.take(taken as int)),
            listed_in_order(out@),
            out@.to_multiset() == given.take(taken as int).to_multiset(),
        decreases rest.len(),
    {
        let x = rest.remove(0);
        assert(x == given[taken as int]);
        let key_x = (x.last_activity_at(), x.id);
        let mut p: usize = out.len();
        let mut moving = true;
        while moving && p > 0
            invariant
                p <= out@.len(),
                key_x == session_key(x),
                forall|q: int| p <= q < out@.len() ==> !key_at_least(session_key(#[trigger] out@[q]), key_x),
                !moving ==> p > 0 && key_at_least(session_key(out@[p - 1]), key_x),
            decreases p + if moving { 1int } else { 0int },
        {
            let key_i = (out[p - 1].last_activity_at(), out[p - 1].id);
            if key_i.0 > key_x.0 || (key_i.0 == key_x.0 && key_i.1 >= key_x.1) {
                moving = false;
            } else {
                p = p - 1;
            }
        }
        let ghost prev = out@;
        proof {
            lemma_insert_session_at(prev, x, p as int);
            assert(given.take(taken as int + 1).drop_last() =~= given.take(taken as int));
            assert(given.take(taken as int + 1).last() == x);
        }
        out.insert(p, x);
        proof {
            assert(out@ =~= prev.take(p as int).push(x) + prev.skip(p as int));
            assert forall|a: int, b: int| 0 <= a < b < out@.len() implies key_at_least(
                session_key(#[trigger] out@[a]),
                session_key(#[trigger] out@[b]),
            ) by {
                if b < p {
                    assert(out@[a] == prev[a] && out@[b] == prev[b]);
                } else if a > p {
                    assert(out@[a] == prev[a - 1] && out@[b] == prev[b - 1]);
                } else if a == p {
                    assert(out@[b] == prev[b - 1]);
                } else if b == p {
                    assert(out@[a] == prev[a]);
                    if a < p - 1 {
                        assert(key_at_least(session_key(prev[a]), session_key(prev[p - 1])));
                    }
                } else {
                    assert(out@[a] == prev[a] && out@[b] == prev[b - 1]);
                }
            }
            assert(out@ =~= prev.insert(p as int, x));
            vstd::seq_lib::to_multiset_insert(prev, p as int, x);
            assert(given.take(taken as int + 1) =~= given.take(taken as int).push(x));
            vstd::seq_lib::to_multiset_build(given.take(taken as int), x);
            taken = taken + 1;
        }
    }
    assert(given.take(taken as int) =~= given);
    out
}

/// The capability names of a stored session; anything but a list of strings is invalid.
pub fn string_array(value: crate::device::StoredStringList) -> (r: Result<Vec<String>, AuthRepositoryError>)
    ensures
        match r {
            Ok(out) => crate::device::listed_strings(value) == Some(out@.map_values(|s: String| s@)),
            Err(e) => crate::device::listed_strings(value) is None && e
                == AuthRepositoryError::InvalidStoredSessionCapabilities,
        },
{
    match crate::device::strings_of(value) {
        Some(out) => Ok(out),
        None => Err(AuthRepositoryError::InvalidStoredSessionCapabilities),
    }
}

// ---------------------------------------------------------------------------------------
// Outcomes of guarded writes.

/// A guarded update of a user's fields: a violated unique name is a username conflict; an
/// update that matched no row at the revision it read means the user is gone.
pub open spec fn user_update_result(unique_violation: bool, rows_affected: u64) -> Result<(), AuthRepositoryError> {
    if unique_violation {
        Err(AuthRepositoryError::UsernameConflict)
    } else if rows_affected != 1 {
        Err(AuthRepositoryError::UserNotFound)
    } else {
        Ok(())
    }
}

pub fn user_update_outcome(unique_violation: bool, rows_affected: u64) -> (r: Result<(), AuthRepositoryError>)
    ensures
        r == user_update_result(unique_violation, rows_affected),
{
    if unique_violation {
        Err(AuthRepositoryError::UsernameConflict)
    } else if rows_affected != 1 {
        Err(AuthRepositoryError::UserNotFound)
    } else {
        Ok(())
    }
}

/// Inserting a user whose name is taken is a username conflict.
pub fn user_insert_outcome(unique_violation: bool) -> (r: Result<(), AuthRepositoryError>)
    ensures
        r is Ok <==> !unique_violation,
        r is Err ==> r == Err::<(), AuthRepositoryError>(AuthRepositoryError::UsernameConflict),
{
    if unique_violation {
        Err(AuthRepositoryError::UsernameConflict)
    } else {
        Ok(())
    }
}

/// The single authentication-state row must be locked by updating exactly it.
pub fn bootstrap_outcome(rows_affected: u64) -> (r: Result<(), AuthRepositoryError>)
    ensures
        r is Ok <==> rows_affected == 1,
        r is Err ==> r == Err::<(), AuthRepositoryError>(AuthRepositoryError::MissingBootstrapState),
{
    if rows_affected == 1 {
        Ok(())
    } else {
        Err(AuthRepositoryError::MissingBootstrapState)
    }
}

/// A user that an import source targets cannot be deleted.
pub fn check_user_unreferenced(referenced: bool) -> (r: Result<(), AuthRepositoryError>)
    ensures
        r is Ok <==> !referenced,
        r is Err ==> r == Err::<(), AuthRepositoryError>(AuthRepositoryError::UserReferenced),
{
    if referenced {
        Err(AuthRepositoryError::UserReferenced)
    } else {
        Ok(())
    }
}

/// A write fenced by the revision (and credential) it read must touch exactly one row;
/// otherwise the credential changed meanwhile.
pub fn fenced_write_outcome(rows_affected: u64) -> (r: Result<(), AuthRepositoryError>)
    ensures
        r is Ok <==> rows_affected == 1,
        r is Err ==> r == Err::<(), AuthRepositoryError>(AuthRepositoryError::CredentialChanged),
{
    if rows_affected == 1 {
        Ok(())
    } else {
        Err(AuthRepositoryError::CredentialChanged)
    }
}

/// Resolves the live session found for a token: the principal of its user when the user is
/// enabled (a disabled user's session resolves to none), and whether the session's recorded
/// activity is stale and is to be refreshed.
pub fn resolve_session_principal(
    user: AuthUser,
    session_id: u128,
    device_id: String,
    created_at: i64,
    last_seen_at: Option<i64>,
    now: i64,
) -> (r: (Option<AuthenticatedPrincipal>, bool))
    requires
        now >= i64::MIN + ACTIVITY_REFRESH_MICROS,
    ensures
        r.0 is Some <==> !user.spec_is_disabled(),
        r.0 matches Some(p) ==> p.spec_user() == user && p.spec_session() == Some((session_id, device_id@))
            && p.spec_api_key() is None,
        r.1 == activity_stale(user.spec_is_disabled(), created_at, last_seen_at, now),
{
    let disabled = user.is_disabled();
    let touch = needs_activity_touch(disabled, created_at, last_seen_at, now);
    if disabled {
        (None, touch)
    } else {
        (Some(AuthenticatedPrincipal::for_session(user, session_id, device_id)), touch)
    }
}

} // verus!
