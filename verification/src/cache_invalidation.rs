//! The single-row cache invalidation queue: which catalog generation must still be pushed
//! to caches, who holds the fenced lease on it, and when a failed attempt may be retried.
//!
//! Timestamps and durations are microseconds; the clock is read by the caller.
use crate::text::opt_string_view;
use vstd::prelude::*;

verus! {

pub const MAX_LEASE_OWNER_CHARS: usize = 128;
pub const MAX_ERROR_CHARS: usize = 256;

#[derive(Clone, Copy, Debug, PartialEq, Eq, Structural)]
pub enum CacheInvalidationRepositoryError {
    EmptyLeaseOwner,
    LeaseOwnerTooLong,
    InvalidLeaseDuration,
    InvalidBackoff,
    InvalidError,
    TimestampOverflow,
    LostLease,
}

/// The clock of the running system; reading it is left to the caller.
#[derive(Clone, Copy, Debug, Default)]
pub struct CacheInvalidationSystemClock;

/// A claimed invalidation: the generation to push and the lease that fences it.
#[derive(Clone, Debug)]
pub struct ClaimedCacheInvalidation {
    generation: i64,
    attempt_count: i32,
    lease_token: String,
}

impl ClaimedCacheInvalidation {
    pub closed spec fn spec_generation(&self) -> i64 {
        self.generation
    }

    pub closed spec fn spec_attempt_count(&self) -> i32 {
        self.attempt_count
    }

    pub closed spec fn spec_lease_token(&self) -> Seq<char> {
        self.lease_token@
    }

    pub fn generation(&self) -> (r: i64)
        ensures
            r == self.spec_generation(),
    {
        self.generation
    }

    /// The generation whose cached entries are now stale: the one before the claimed one.
    pub fn stale_generation(&self) -> (r: i64)
        requires
            self.spec_generation() > i64::MIN,
        ensures
            r == self.spec_generation() - 1,
    {
        self.generation - 1
    }

    pub fn attempt_count(&self) -> (r: i32)
        ensures
            r == self.spec_attempt_count(),
    {
        self.attempt_count
    }

    pub fn lease_token(&self) -> (r: &str)
        ensures
            r@ == self.spec_lease_token(),
    {
        self.lease_token.as_str()
    }
}

/// A lease owner is not blank and has at most `MAX_LEASE_OWNER_CHARS` characters; a lease
/// lasts a positive time.
pub open spec fn lease_outcome(owner: Seq<char>, duration: i64) -> Result<(), CacheInvalidationRepositoryError> {
    if crate::text::is_blank(owner) {
        Err(CacheInvalidationRepositoryError::EmptyLeaseOwner)
    } else if owner.len() > MAX_LEASE_OWNER_CHARS {
        Err(CacheInvalidationRepositoryError::LeaseOwnerTooLong)
    } else if duration <= 0 {
        Err(CacheInvalidationRepositoryError::InvalidLeaseDuration)
    } else {
        Ok(())
    }
}

pub fn validate_lease(owner: &str, duration: i64) -> (r: Result<(), CacheInvalidationRepositoryError>)
    ensures
        r == lease_outcome(owner@, duration),
{
    let chars = crate::text::chars_of(owner);
    if crate::text::blank(chars.as_slice()) {
        return Err(CacheInvalidationRepositoryError::EmptyLeaseOwner);
    }
    if chars.len() > MAX_LEASE_OWNER_CHARS {
        return Err(CacheInvalidationRepositoryError::LeaseOwnerTooLong);
    }
    if duration <= 0 {
        return Err(CacheInvalidationRepositoryError::InvalidLeaseDuration);
    }
    Ok(())
}

/// A retry waits a non-negative time and records a non-blank error of at most
/// `MAX_ERROR_CHARS` characters.
pub open spec fn failure_outcome(backoff: i64, error: Seq<char>) -> Result<(), CacheInvalidationRepositoryError> {
    if backoff < 0 {
        Err(CacheInvalidationRepositoryError::InvalidBackoff)
    } else if crate::text::is_blank(error) || error.len() > MAX_ERROR_CHARS {
        Err(CacheInvalidationRepositoryError::InvalidError)
    } else {
        Ok(())
    }
}

pub fn validate_failure(backoff: i64, error: &str) -> (r: Result<(), CacheInvalidationRepositoryError>)
    ensures
        r == failure_outcome(backoff, error@),
{
    if backoff < 0 {
        return Err(CacheInvalidationRepositoryError::InvalidBackoff);
    }
    let chars = crate::text::chars_of(error);
    if crate::text::blank(chars.as_slice()) || chars.len() > MAX_ERROR_CHARS {
        return Err(CacheInvalidationRepositoryError::InvalidError);
    }
    Ok(())
}

/// The stored invalidation state.
#[derive(Clone, Debug)]
pub struct CacheInvalidationState {
    pub processed_generation: i64,
    pub target_generation: Option<i64>,
    pub attempt_count: i32,
    pub lease_owner: Option<String>,
    pub lease_expires_at: Option<i64>,
    pub available_at: Option<i64>,
    pub last_error: Option<String>,
}

/// The state as values.
pub struct InvalidationView {
    pub processed_generation: i64,
    pub target_generation: Option<i64>,
    pub attempt_count: i32,
    pub lease_owner: Option<Seq<char>>,
    pub lease_expires_at: Option<i64>,
    pub available_at: Option<i64>,
    pub last_error: Option<Seq<char>>,
}

impl View for CacheInvalidationState {
    type V = InvalidationView;

    open spec fn view(&self) -> InvalidationView {
        InvalidationView {
            processed_generation: self.processed_generation,
            target_generation: self.target_generation,
            attempt_count: self.attempt_count,
            lease_owner: opt_string_view(self.lease_owner),
            lease_expires_at: self.lease_expires_at,
            available_at: self.available_at,
            last_error: opt_string_view(self.last_error),
        }
    }
}

/// The generation a claim takes: the pending target, else the catalog generation when it
/// is ahead of the processed one.
pub open spec fn pending_generation(s: InvalidationView, catalog_generation: i64) -> Option<i64> {
    match s.target_generation {
        Some(t) => Some(t),
        None => if catalog_generation > s.processed_generation {
            Some(catalog_generation)
        } else {
            None
        },
    }
}

/// The row may be claimed at `now`: any retry delay has passed and no unexpired lease is
/// held.
pub open spec fn claimable(s: InvalidationView, now: i64) -> bool {
    &&& (s.available_at matches Some(a) ==> a <= now)
    &&& (s.lease_owner is None || (s.lease_expires_at matches Some(e) && e <= now))
}

/// Claiming at `now` with lease `token` until `expires`: the new state and the claim, if
/// any.
pub open spec fn claimed_state(
    s: InvalidationView,
    catalog_generation: i64,
    token: Seq<char>,
    now: i64,
    expires: i64,
) -> (InvalidationView, Option<(i64, i32)>) {
    match pending_generation(s, catalog_generation) {
        None => (s, None),
        Some(g) => if claimable(s, now) {
            (
                InvalidationView {
                    target_generation: Some(g),
                    lease_owner: Some(token),
                    lease_expires_at: Some(expires),
                    ..s
                },
                Some((g, s.attempt_count)),
            )
        } else {
            (s, None)
        },
    }
}

/// How a held lease ends.
pub enum ClaimUpdate {
    /// The generation was pushed: it becomes the processed one.
    Complete,
    /// An incomplete batch is handed back without counting an attempt.
    Release,
    /// The attempt failed: retry no earlier than `available_at`, recording the error.
    Fail { available_at: i64, error: String },
}

/// The claim still holds its lease at `now`.
pub open spec fn lease_current(s: InvalidationView, generation: i64, token: Seq<char>, now: i64) -> bool {
    &&& s.target_generation == Some(generation)
    &&& s.lease_owner == Some(token)
    &&& s.lease_expires_at matches Some(e) && e > now
}

/// The state after ending a lease that is still current.
pub open spec fn ended_state(s: InvalidationView, generation: i64, update: ClaimUpdate) -> InvalidationView {
    let released = InvalidationView { lease_owner: None, lease_expires_at: None, ..s };
    match update {
        ClaimUpdate::Complete => InvalidationView {
            processed_generation: generation,
            target_generation: None,
            attempt_count: 0,
            available_at: None,
            last_error: None,
            ..released
        },
        ClaimUpdate::Release => InvalidationView { available_at: None, last_error: None, ..released },
        ClaimUpdate::Fail { available_at, error } => InvalidationView {
            attempt_count: (s.attempt_count + 1) as i32,
            available_at: Some(available_at),
            last_error: Some(error@),
            ..released
        },
    }
}

fn opt_string_eq(a: &Option<String>, b: &str) -> (r: bool)
    ensures
        r == (opt_string_view(*a) == Some(b@)),
{
    match a {
        Some(s) => crate::text::str_eq(s.as_str(), b),
        None => false,
    }
}

fn owned(s: &str) -> (r: String)
    ensures
        r@ == s@,
{
    s.to_owned()
}

impl CacheInvalidationState {
    /// Claims the pending generation with a fenced lease, when there is one and the row is
    /// claimable at `now`. The state is unchanged when nothing is claimed.
    pub fn claim(&mut self, catalog_generation: i64, token: &str, now: i64, expires: i64) -> (r: Option<
        ClaimedCacheInvalidation,
    >)
        ensures
            ({
                let (next, claim) = claimed_state(old(self)@, catalog_generation, token@, now, expires);
                &&& final(self)@ == next
                &&& match r {
                    Some(c) => claim == Some((c.spec_generation(), c.spec_attempt_count()))
                        && c.spec_lease_token() == token@,
                    None => claim is None,
                }
            }),
    {
        let generation = match self.target_generation {
            Some(t) => t,
            None => if catalog_generation > self.processed_generation {
                catalog_generation
            } else {
                return None;
            },
        };
        let available = match self.available_at {
            Some(a) => a <= now,
            None => true,
        };
        let unleased = match self.lease_owner {
            None => true,
            Some(_) => match self.lease_expires_at {
                Some(e) => e <= now,
                None => false,
            },
        };
        if !available || !unleased {
            return None;
        }
        self.target_generation = Some(generation);
        self.lease_owner = Some(owned(token));
        self.lease_expires_at = Some(expires);
        Some(ClaimedCacheInvalidation { generation, attempt_count: self.attempt_count, lease_token: owned(token) })
    }

    /// Ends the lease of `claimed` while it is still current at `now`; a lease that expired
    /// or was taken over is lost and the state is unchanged.
    pub fn end_claim(&mut self, claimed: &ClaimedCacheInvalidation, now: i64, update: ClaimUpdate) -> (r: Result<
        (),
        CacheInvalidationRepositoryError,
    >)
        requires
            update is Fail ==> old(self).attempt_count < i32::MAX,
        ensures
            lease_current(old(self)@, claimed.spec_generation(), claimed.spec_lease_token(), now) ==> r
                is Ok && final(self)@ == ended_state(old(self)@, claimed.spec_generation(), update),
            !lease_current(old(self)@, claimed.spec_generation(), claimed.spec_lease_token(), now)
                ==> r == Err::<(), CacheInvalidationRepositoryError>(
                CacheInvalidationRepositoryError::LostLease,
            ) && final(self)@ == old(self)@,
    {
        let current = match self.target_generation {
            Some(t) => t == claimed.generation,
            None => false,
        } && opt_string_eq(&self.lease_owner, claimed.lease_token.as_str()) && match self.lease_expires_at {
            Some(e) => e > now,
            None => false,
        };
        if !current {
            return Err(CacheInvalidationRepositoryError::LostLease);
        }
        self.lease_owner = None;
        self.lease_expires_at = None;
        match update {
            ClaimUpdate::Complete => {
                self.processed_generation = claimed.generation;
                self.target_generation = None;
                self.attempt_count = 0;
                self.available_at = None;
                self.last_error = None;
            },
            ClaimUpdate::Release => {
                self.available_at = None;
                self.last_error = None;
            },
            ClaimUpdate::Fail { available_at, error } => {
                self.attempt_count = self.attempt_count + 1;
                self.available_at = Some(available_at);
                self.last_error = Some(error);
            },
        }
        Ok(())
    }
}

/// While a lease is unexpired no second claim succeeds.
pub proof fn held_lease_excludes_claims(
    s: InvalidationView,
    catalog_generation: i64,
    token: Seq<char>,
    other: Seq<char>,
    now: i64,
    expires: i64,
    later: i64,
    later_expires: i64,
)
    requires
        claimed_state(s, catalog_generation, token, now, expires).1 is Some,
        later < expires,
    ensures
        claimed_state(
            claimed_state(s, catalog_generation, token, now, expires).0,
            catalog_generation,
            other,
            later,
            later_expires,
        ).1 is None,
{
}

/// Completing a claim whose lease is current makes its generation the processed one, and
/// nothing is claimed afterwards until the catalog moves past it.
pub proof fn completed_generation_is_not_claimed_again(
    s: InvalidationView,
    catalog_generation: i64,
    token: Seq<char>,
    now: i64,
    expires: i64,
    done_at: i64,
    later: i64,
    later_expires: i64,
    next_token: Seq<char>,
)
    requires
        claimed_state(s, catalog_generation, token, now, expires).1 is Some,
        done_at < expires,
        pending_generation(s, catalog_generation) == Some(catalog_generation),
    ensures
        ({
            let held = claimed_state(s, catalog_generation, token, now, expires).0;
            let claim: (i64, i32) = claimed_state(s, catalog_generation, token, now, expires).1->0;
            let g = claim.0;
            &&& lease_current(held, g, token, done_at)
            &&& ended_state(held, g, ClaimUpdate::Complete).processed_generation == catalog_generation
            &&& claimed_state(
                ended_state(held, g, ClaimUpdate::Complete),
                catalog_generation,
                next_token,
                later,
                later_expires,
            ).1 is None
        }),
{
}

/// A failed attempt counts one more attempt and a release counts none.
pub proof fn failures_count_attempts(s: InvalidationView, generation: i64, available_at: i64, error: String)
    requires
        s.attempt_count < i32::MAX,
    ensures
        ended_state(s, generation, ClaimUpdate::Fail { available_at, error }).attempt_count == s.attempt_count + 1,
        ended_state(s, generation, ClaimUpdate::Release).attempt_count == s.attempt_count,
{
}

/// Completing a current lease makes its generation the processed one and clears the
/// pending work: no target, no lease, no retry delay, no error, and no attempts counted, so
/// the next generation claimed afterwards reports no earlier attempts.
pub proof fn completion_resets_attempts(
    s: InvalidationView,
    generation: i64,
    catalog_generation: i64,
    token: Seq<char>,
    now: i64,
    expires: i64,
)
    ensures
        ({
            let done = ended_state(s, generation, ClaimUpdate::Complete);
            &&& done.attempt_count == 0
            &&& done.processed_generation == generation
            &&& done.target_generation is None
            &&& done.lease_owner is None && done.lease_expires_at is None
            &&& done.available_at is None && done.last_error is None
            &&& claimed_state(done, catalog_generation, token, now, expires).1 matches Some((g, a)) ==> (g
                == catalog_generation && g > generation && a == 0)
        }),
{
}

/// A failed attempt is retried: once the retry time has come, the same generation is
/// claimed again with one more attempt counted.
pub proof fn failed_generation_is_retried_with_one_more_attempt(
    s: InvalidationView,
    catalog_generation: i64,
    token: Seq<char>,
    now: i64,
    expires: i64,
    failed_at: i64,
    available_at: i64,
    error: String,
    retry_token: Seq<char>,
    retry_at: i64,
    retry_expires: i64,
)
    requires
        claimed_state(s, catalog_generation, token, now, expires).1 is Some,
        failed_at < expires,
        s.attempt_count < i32::MAX,
        available_at <= retry_at,
    ensures
        ({
            let held = claimed_state(s, catalog_generation, token, now, expires).0;
            let first: (i64, i32) = claimed_state(s, catalog_generation, token, now, expires).1->0;
            let failed = ended_state(held, first.0, ClaimUpdate::Fail { available_at, error });
            &&& lease_current(held, first.0, token, failed_at)
            &&& claimed_state(failed, catalog_generation, retry_token, retry_at, retry_expires).1 == Some(
                (first.0, (first.1 + 1) as i32),
            )
        }),
{
}

// ---------------------------------------------------------------------------------------
// Instants and lease tokens.

/// The instant `delta` microseconds after `at` (both in microseconds since the Unix epoch),
/// as `chrono` computes it, if the result lies within `chrono`'s range.
pub uninterp spec fn shifted_instant(at: i64, delta: i64) -> Option<i64>;

/// Calls `chrono::DateTime::<Utc>::from_timestamp_micros`, `checked_add_signed` with
/// `TimeDelta::microseconds(delta)` and `timestamp_micros`. Trusted: the result is
/// `shifted_instant` of the arguments, and an instant that exists is `at + delta`.
#[verifier::external_body]
fn shift_instant(at: i64, delta: i64) -> (r: Option<i64>)
    ensures
        r == shifted_instant(at, delta),
        r matches Some(t) ==> t == at + delta,
{
    match chrono::DateTime::from_timestamp_micros(at) {
        Some(start) => match start.checked_add_signed(chrono::TimeDelta::microseconds(delta)) {
            Some(end) => Some(end.timestamp_micros()),
            None => None,
        },
        None => None,
    }
}

/// An instant after `at` by `delta`; one beyond the representable range is a timestamp
/// overflow.
pub fn instant_after(at: i64, delta: i64) -> (r: Result<i64, CacheInvalidationRepositoryError>)
    ensures
        match shifted_instant(at, delta) {
            Some(t) => r == Ok::<i64, CacheInvalidationRepositoryError>(t) && t == at + delta,
            None => r == Err::<i64, CacheInvalidationRepositoryError>(
                CacheInvalidationRepositoryError::TimestampOverflow,
            ),
        },
{
    match shift_instant(at, delta) {
        Some(t) => Ok(t),
        None => Err(CacheInvalidationRepositoryError::TimestampOverflow),
    }
}

/// Checks a claim request made at `now` and gives the lease expiry.
pub fn plan_claim(lease_owner: &str, lease_duration: i64, now: i64) -> (r: Result<i64, CacheInvalidationRepositoryError>)
    ensures
        match lease_outcome(lease_owner@, lease_duration) {
            Err(e) => r == Err::<i64, CacheInvalidationRepositoryError>(e),
            Ok(_) => match shifted_instant(now, lease_duration) {
                Some(t) => r == Ok::<i64, CacheInvalidationRepositoryError>(t) && t == now + lease_duration,
                None => r == Err::<i64, CacheInvalidationRepositoryError>(
                    CacheInvalidationRepositoryError::TimestampOverflow,
                ),
            },
        },
{
    validate_lease(lease_owner, lease_duration)?;
    instant_after(now, lease_duration)
}

/// Checks a failure reported at `now` and gives when the invalidation may be retried.
pub fn plan_failure(backoff: i64, error: &str, now: i64) -> (r: Result<i64, CacheInvalidationRepositoryError>)
    ensures
        match failure_outcome(backoff, error@) {
            Err(e) => r == Err::<i64, CacheInvalidationRepositoryError>(e),
            Ok(_) => match shifted_instant(now, backoff) {
                Some(t) => r == Ok::<i64, CacheInvalidationRepositoryError>(t) && t == now + backoff,
                None => r == Err::<i64, CacheInvalidationRepositoryError>(
                    CacheInvalidationRepositoryError::TimestampOverflow,
                ),
            },
        },
{
    validate_failure(backoff, error)?;
    instant_after(now, backoff)
}

/// The lease token of an owner: the owner, a colon, and a fresh random id in its
/// hyphenated form.
pub fn lease_token(lease_owner: &str) -> (r: String)
    ensures
        exists|id: u128| r@ == lease_owner@ + ":"@ + crate::identity::hyphenated(id),
{
    let mut token = String::new();
    crate::filesystem_path::push_str_chars(&mut token, lease_owner);
    crate::filesystem_path::push_str_chars(&mut token, ":");
    let id = crate::identity::random_id();
    let text = crate::identity::hyphenated_text(id);
    crate::filesystem_path::push_str_chars(&mut token, text.as_str());
    assert(token@ == lease_owner@ + ":"@ + crate::identity::hyphenated(id));
    token
}

} // verus!
