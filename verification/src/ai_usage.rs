//! AI execution records: outcome texts, the consistency rules of a recorded execution, the
//! analytics window, the arithmetic of usage aggregates, and the day-by-day trend.
//!
//! Days are counted as `chrono` does, from January 1 of year 1 (day 1); timestamps are
//! microseconds since the Unix epoch.
use chrono::Datelike;
use vstd::prelude::*;

verus! {

/// The most rows an analytics listing returns.
pub const MAX_ANALYTICS_ROWS: u64 = 100;

#[derive(Clone, Copy, Debug, PartialEq, Eq, Structural)]
pub enum AiUsageRepositoryError {
    InvalidInput,
    InvalidStoredOutcome,
    InvalidStoredAggregate,
    MissingAggregate,
}

#[derive(Clone, Copy, Debug, PartialEq, Eq, Structural)]
pub enum AiExecutionOutcome {
    Success,
    UpstreamRejected,
    UpstreamInvalid,
    UpstreamTimeout,
    ToolFailed,
    PersistenceFailed,
    InternalError,
}

pub open spec fn outcome_text(o: AiExecutionOutcome) -> Seq<char> {
    match o {
        AiExecutionOutcome::Success => "success"@,
        AiExecutionOutcome::UpstreamRejected => "upstream_rejected"@,
        AiExecutionOutcome::UpstreamInvalid => "upstream_invalid"@,
        AiExecutionOutcome::UpstreamTimeout => "upstream_timeout"@,
        AiExecutionOutcome::ToolFailed => "tool_failed"@,
        AiExecutionOutcome::PersistenceFailed => "persistence_failed"@,
        AiExecutionOutcome::InternalError => "internal_error"@,
    }
}

pub open spec fn outcome_of(s: Seq<char>) -> Result<AiExecutionOutcome, AiUsageRepositoryError> {
    if s == "success"@ {
        Ok(AiExecutionOutcome::Success)
    } else if s == "upstream_rejected"@ {
        Ok(AiExecutionOutcome::UpstreamRejected)
    } else if s == "upstream_invalid"@ {
        Ok(AiExecutionOutcome::UpstreamInvalid)
    } else if s == "upstream_timeout"@ {
        Ok(AiExecutionOutcome::UpstreamTimeout)
    } else if s == "tool_failed"@ {
        Ok(AiExecutionOutcome::ToolFailed)
    } else if s == "persistence_failed"@ {
        Ok(AiExecutionOutcome::PersistenceFailed)
    } else if s == "internal_error"@ {
        Ok(AiExecutionOutcome::InternalError)
    } else {
        Err(AiUsageRepositoryError::InvalidStoredOutcome)
    }
}

impl AiExecutionOutcome {
    pub fn as_str(self) -> (r: &'static str)
        ensures
            r@ == outcome_text(self),
    {
        match self {
            AiExecutionOutcome::Success => "success",
            AiExecutionOutcome::UpstreamRejected => "upstream_rejected",
            AiExecutionOutcome::UpstreamInvalid => "upstream_invalid",
            AiExecutionOutcome::UpstreamTimeout => "upstream_timeout",
            AiExecutionOutcome::ToolFailed => "tool_failed",
            AiExecutionOutcome::PersistenceFailed => "persistence_failed",
            AiExecutionOutcome::InternalError => "internal_error",
        }
    }

    pub fn parse(value: &str) -> (r: Result<Self, AiUsageRepositoryError>)
        ensures
            r == outcome_of(value@),
    {
        if crate::text::str_eq(value, "success") {
            Ok(AiExecutionOutcome::Success)
        } else if crate::text::str_eq(value, "upstream_rejected") {
            Ok(AiExecutionOutcome::UpstreamRejected)
        } else if crate::text::str_eq(value, "upstream_invalid") {
            Ok(AiExecutionOutcome::UpstreamInvalid)
        } else if crate::text::str_eq(value, "upstream_timeout") {
            Ok(AiExecutionOutcome::UpstreamTimeout)
        } else if crate::text::str_eq(value, "tool_failed") {
            Ok(AiExecutionOutcome::ToolFailed)
        } else if crate::text::str_eq(value, "persistence_failed") {
            Ok(AiExecutionOutcome::PersistenceFailed)
        } else if crate::text::str_eq(value, "internal_error") {
            Ok(AiExecutionOutcome::InternalError)
        } else {
            Err(AiUsageRepositoryError::InvalidStoredOutcome)
        }
    }
}

/// Every outcome is read back from its stored text.
pub proof fn outcome_text_round_trip(o: AiExecutionOutcome)
    ensures
        outcome_of(outcome_text(o)) == Ok::<AiExecutionOutcome, AiUsageRepositoryError>(o),
{
    reveal_strlit("success");
    reveal_strlit("upstream_rejected");
    reveal_strlit("upstream_invalid");
    reveal_strlit("upstream_timeout");
    reveal_strlit("tool_failed");
    reveal_strlit("persistence_failed");
    reveal_strlit("internal_error");
    assert("upstream_rejected"@[9] != "upstream_invalid"@[9]);
    assert("upstream_rejected"@[9] != "upstream_timeout"@[9]);
    assert("upstream_invalid"@[9] != "upstream_timeout"@[9]);
    assert("success"@[0] != "upstream_rejected"@[0] && "success"@[0] != "upstream_invalid"@[0]
        && "success"@[0] != "upstream_timeout"@[0] && "success"@[0] != "tool_failed"@[0]
        && "success"@[0] != "persistence_failed"@[0] && "success"@[0] != "internal_error"@[0]);
    assert("tool_failed"@[0] != "upstream_rejected"@[0] && "tool_failed"@[0]
        != "upstream_invalid"@[0] && "tool_failed"@[0] != "upstream_timeout"@[0]
        && "tool_failed"@[0] != "persistence_failed"@[0] && "tool_failed"@[0]
        != "internal_error"@[0]);
    assert("persistence_failed"@[0] != "upstream_rejected"@[0] && "persistence_failed"@[0]
        != "upstream_invalid"@[0] && "persistence_failed"@[0] != "upstream_timeout"@[0]
        && "persistence_failed"@[0] != "internal_error"@[0]);
    assert("internal_error"@[0] != "upstream_rejected"@[0] && "internal_error"@[0]
        != "upstream_invalid"@[0] && "internal_error"@[0] != "upstream_timeout"@[0]);
}

/// A text that reads as an outcome is that outcome's text.
pub proof fn outcome_of_is_exact(s: Seq<char>)
    ensures
        outcome_of(s) matches Ok(o) ==> outcome_text(o) == s,
{
}

// ---------------------------------------------------------------------------------------
// Days.

/// The day that `chrono` reads from a text in the form `%Y-%m-%d`, as its number of days
/// from the common era, if the text is such a date.
pub uninterp spec fn parsed_day(text: Seq<char>) -> Option<i32>;

/// The `%Y-%m-%d` text of a day number, if the number is a date `chrono` represents.
pub uninterp spec fn day_text_of(days: i32) -> Option<Seq<char>>;

/// Calls `chrono::NaiveDate::parse_from_str` with the format `%Y-%m-%d` and takes the
/// parsed date's `num_days_from_ce`. Trusted: the result is `parsed_day` of the text.
#[verifier::external_body]
fn parse_day(value: &str) -> (r: Option<i32>)
    ensures
        r == parsed_day(value@),
{
    match chrono::NaiveDate::parse_from_str(value, "%Y-%m-%d") {
        Ok(date) => Some(date.num_days_from_ce()),
        Err(_) => None,
    }
}

/// Calls `chrono::NaiveDate::from_num_days_from_ce_opt` and renders the date with its
/// `Display`. Trusted: the result is `day_text_of` of the day number.
#[verifier::external_body]
fn day_text(days: i32) -> (r: Option<String>)
    ensures
        crate::text::opt_string_view(r) == day_text_of(days),
{
    match chrono::NaiveDate::from_num_days_from_ce_opt(days) {
        Some(date) => Some(date.to_string()),
        None => None,
    }
}

/// Reads a `%Y-%m-%d` day; any other text is invalid input.
pub fn validate_day(value: &str) -> (r: Result<i32, AiUsageRepositoryError>)
    ensures
        match r {
            Ok(d) => parsed_day(value@) == Some(d),
            Err(e) => parsed_day(value@) is None && e == AiUsageRepositoryError::InvalidInput,
        },
{
    match parse_day(value) {
        Some(d) => Ok(d),
        None => Err(AiUsageRepositoryError::InvalidInput),
    }
}

// ---------------------------------------------------------------------------------------
// Recorded executions.

/// One completed AI execution, without message or provider error content.
pub struct AiExecutionInput {
    user_id: u128,
    model_id: u128,
    model_display_name: String,
    upstream_model_id: String,
    day_key: String,
    started_at: i64,
    completed_at: i64,
    elapsed_ms: u64,
    outcome: AiExecutionOutcome,
    prompt_tokens: Option<u64>,
    completion_tokens: Option<u64>,
    total_tokens: Option<u64>,
}

impl AiExecutionInput {
    pub closed spec fn spec_user_id(&self) -> u128 {
        self.user_id
    }

    pub closed spec fn spec_model_id(&self) -> u128 {
        self.model_id
    }

    pub closed spec fn spec_model_display_name(&self) -> Seq<char> {
        self.model_display_name@
    }

    pub closed spec fn spec_upstream_model_id(&self) -> Seq<char> {
        self.upstream_model_id@
    }

    pub closed spec fn spec_day_key(&self) -> Seq<char> {
        self.day_key@
    }

    pub closed spec fn spec_started_at(&self) -> i64 {
        self.started_at
    }

    pub closed spec fn spec_completed_at(&self) -> i64 {
        self.completed_at
    }

    pub closed spec fn spec_elapsed_ms(&self) -> u64 {
        self.elapsed_ms
    }

    pub closed spec fn spec_outcome(&self) -> AiExecutionOutcome {
        self.outcome
    }

    pub closed spec fn spec_prompt_tokens(&self) -> Option<u64> {
        self.prompt_tokens
    }

    pub closed spec fn spec_completion_tokens(&self) -> Option<u64> {
        self.completion_tokens
    }

    pub closed spec fn spec_total_tokens(&self) -> Option<u64> {
        self.total_tokens
    }

    pub fn user_id(&self) -> (r: u128)
        ensures
            r == self.spec_user_id(),
    {
        self.user_id
    }

    pub fn model_id(&self) -> (r: u128)
        ensures
            r == self.spec_model_id(),
    {
        self.model_id
    }

    pub fn model_display_name(&self) -> (r: &str)
        ensures
            r@ == self.spec_model_display_name(),
    {
        self.model_display_name.as_str()
    }

    pub fn upstream_model_id(&self) -> (r: &str)
        ensures
            r@ == self.spec_upstream_model_id(),
    {
        self.upstream_model_id.as_str()
    }

    pub fn day_key(&self) -> (r: &str)
        ensures
            r@ == self.spec_day_key(),
    {
        self.day_key.as_str()
    }

    pub fn started_at(&self) -> (r: i64)
        ensures
            r == self.spec_started_at(),
    {
        self.started_at
    }

    pub fn completed_at(&self) -> (r: i64)
        ensures
            r == self.spec_completed_at(),
    {
        self.completed_at
    }

    pub fn elapsed_ms(&self) -> (r: u64)
        ensures
            r == self.spec_elapsed_ms(),
    {
        self.elapsed_ms
    }

    pub fn outcome(&self) -> (r: AiExecutionOutcome)
        ensures
            r == self.spec_outcome(),
    {
        self.outcome
    }

    pub fn prompt_tokens(&self) -> (r: Option<u64>)
        ensures
            r == self.spec_prompt_tokens(),
    {
        self.prompt_tokens
    }

    pub fn completion_tokens(&self) -> (r: Option<u64>)
        ensures
            r == self.spec_completion_tokens(),
    {
        self.completion_tokens
    }

    pub fn total_tokens(&self) -> (r: Option<u64>)
        ensures
            r == self.spec_total_tokens(),
    {
        self.total_tokens
    }

}

impl AiExecutionInput {
    /// An execution with unknown token usage.
    pub fn new(
        user_id: u128,
        model_id: u128,
        model_display_name: String,
        upstream_model_id: String,
        day_key: String,
        started_at: i64,
        completed_at: i64,
        elapsed_ms: u64,
        outcome: AiExecutionOutcome,
    ) -> (r: Self)
        ensures
            r.spec_user_id() == user_id && r.spec_model_id() == model_id,
            r.spec_model_display_name() == model_display_name@ && r.spec_upstream_model_id()
                == upstream_model_id@ && r.spec_day_key() == day_key@,
            r.spec_started_at() == started_at && r.spec_completed_at() == completed_at
                && r.spec_elapsed_ms() == elapsed_ms && r.spec_outcome() == outcome,
            r.spec_prompt_tokens() is None && r.spec_completion_tokens() is None
                && r.spec_total_tokens() is None,
    {
        AiExecutionInput {
            user_id,
            model_id,
            model_display_name,
            upstream_model_id,
            day_key,
            started_at,
            completed_at,
            elapsed_ms,
            outcome,
            prompt_tokens: None,
            completion_tokens: None,
            total_tokens: None,
        }
    }

    /// The same execution with known usage; the total is their sum, or unknown when the
    /// sum does not fit.
    pub fn with_usage(self, prompt_tokens: u64, completion_tokens: u64) -> (r: Self)
        ensures
            r.spec_prompt_tokens() == Some(prompt_tokens),
            r.spec_completion_tokens() == Some(completion_tokens),
            r.spec_total_tokens() == expected_total(Some(prompt_tokens), Some(completion_tokens)),
            r.spec_user_id() == self.spec_user_id() && r.spec_model_id() == self.spec_model_id(),
            r.spec_model_display_name() == self.spec_model_display_name()
                && r.spec_upstream_model_id() == self.spec_upstream_model_id()
                && r.spec_day_key() == self.spec_day_key(),
            r.spec_started_at() == self.spec_started_at() && r.spec_completed_at()
                == self.spec_completed_at() && r.spec_elapsed_ms() == self.spec_elapsed_ms()
                && r.spec_outcome() == self.spec_outcome(),
    {
        let mut r = self;
        r.prompt_tokens = Some(prompt_tokens);
        r.completion_tokens = Some(completion_tokens);
        r.total_tokens = prompt_tokens.checked_add(completion_tokens);
        r
    }

    /// The same execution, usage left unknown.
    pub fn with_unknown_usage(self) -> (r: Self)
        ensures
            r == self,
    {
        self
    }
}

/// The total that known prompt and completion counts imply: their sum when both are known
/// and it fits, else unknown.
pub open spec fn expected_total(prompt: Option<u64>, completion: Option<u64>) -> Option<u64> {
    match (prompt, completion) {
        (Some(p), Some(c)) => if p + c <= u64::MAX {
            Some((p + c) as u64)
        } else {
            None
        },
        _ => None,
    }
}

/// A recorded execution is consistent: a `%Y-%m-%d` day, a non-nil model, bounded model
/// names, a completion not before its start, and a total that matches the known counts.
pub open spec fn execution_valid(input: AiExecutionInput) -> bool {
    &&& parsed_day(input.spec_day_key()) is Some
    &&& input.spec_model_id() != 0
    &&& crate::text::bounded_plain_text(input.spec_model_display_name(), 128)
    &&& crate::text::bounded_plain_text(input.spec_upstream_model_id(), 255)
    &&& input.spec_completed_at() >= input.spec_started_at()
    &&& input.spec_total_tokens() == expected_total(
        input.spec_prompt_tokens(),
        input.spec_completion_tokens(),
    )
}

pub fn validate_input(input: &AiExecutionInput) -> (r: Result<(), AiUsageRepositoryError>)
    ensures
        r is Ok <==> execution_valid(*input),
        r is Err ==> r == Err::<(), AiUsageRepositoryError>(AiUsageRepositoryError::InvalidInput),
{
    validate_day(input.day_key.as_str())?;
    let expected = match (input.prompt_tokens, input.completion_tokens) {
        (Some(p), Some(c)) => p.checked_add(c),
        _ => None,
    };
    if input.model_id == 0 || !crate::text::is_bounded_plain_text(
        input.model_display_name.as_str(),
        128,
    ) || !crate::text::is_bounded_plain_text(input.upstream_model_id.as_str(), 255)
        || input.completed_at < input.started_at || input.total_tokens != expected {
        return Err(AiUsageRepositoryError::InvalidInput);
    }
    Ok(())
}

/// A stored count must not be negative.
pub fn unsigned(value: i64) -> (r: Result<u64, AiUsageRepositoryError>)
    ensures
        match r {
            Ok(n) => value >= 0 && n == value,
            Err(e) => value < 0 && e == AiUsageRepositoryError::InvalidStoredAggregate,
        },
{
    if value < 0 {
        Err(AiUsageRepositoryError::InvalidStoredAggregate)
    } else {
        Ok(value as u64)
    }
}

/// A known count is stored as a signed 64-bit integer; one that does not fit is invalid.
pub fn optional_i64(value: Option<u64>) -> (r: Result<Option<i64>, AiUsageRepositoryError>)
    ensures
        match value {
            None => r == Ok::<Option<i64>, AiUsageRepositoryError>(None),
            Some(v) => if v <= i64::MAX {
                r == Ok::<Option<i64>, AiUsageRepositoryError>(Some(v as i64))
            } else {
                r == Err::<Option<i64>, AiUsageRepositoryError>(AiUsageRepositoryError::InvalidInput)
            },
        },
{
    match value {
        None => Ok(None),
        Some(v) => if v <= 0x7fff_ffff_ffff_ffffu64 {
            Ok(Some(v as i64))
        } else {
            Err(AiUsageRepositoryError::InvalidInput)
        },
    }
}

/// A known count that does not fit a signed 64-bit integer.
pub open spec fn beyond_i64(v: Option<u64>) -> bool {
    match v {
        Some(x) => x > i64::MAX,
        None => false,
    }
}

/// The stored form of an execution's elapsed time and token counts.
pub fn stored_counts(input: &AiExecutionInput) -> (r: Result<
    (i64, Option<i64>, Option<i64>, Option<i64>),
    AiUsageRepositoryError,
>)
    ensures
        match r {
            Ok((elapsed, p, c, t)) => {
                &&& input.spec_elapsed_ms() <= i64::MAX && elapsed == input.spec_elapsed_ms()
                &&& p == (match input.spec_prompt_tokens() {
                    Some(v) => Some(v as i64),
                    None => None,
                }) && (input.spec_prompt_tokens() matches Some(v) ==> v <= i64::MAX)
                &&& c == (match input.spec_completion_tokens() {
                    Some(v) => Some(v as i64),
                    None => None,
                }) && (input.spec_completion_tokens() matches Some(v) ==> v <= i64::MAX)
                &&& t == (match input.spec_total_tokens() {
                    Some(v) => Some(v as i64),
                    None => None,
                }) && (input.spec_total_tokens() matches Some(v) ==> v <= i64::MAX)
            },
            Err(e) => e == AiUsageRepositoryError::InvalidInput && (input.spec_elapsed_ms()
                > i64::MAX || beyond_i64(input.spec_prompt_tokens()) || beyond_i64(
                input.spec_completion_tokens(),
            ) || beyond_i64(input.spec_total_tokens())),
        },
{
    if input.elapsed_ms > 0x7fff_ffff_ffff_ffffu64 {
        return Err(AiUsageRepositoryError::InvalidInput);
    }
    let p = optional_i64(input.prompt_tokens)?;
    let c = optional_i64(input.completion_tokens)?;
    let t = optional_i64(input.total_tokens)?;
    Ok((input.elapsed_ms as i64, p, c, t))
}

/// A daily quota must allow at least one request.
pub fn check_quota_limit(limit: u32) -> (r: Result<(), AiUsageRepositoryError>)
    ensures
        r is Ok <==> limit > 0,
        r is Err ==> r == Err::<(), AiUsageRepositoryError>(AiUsageRepositoryError::InvalidInput),
{
    if limit == 0 {
        Err(AiUsageRepositoryError::InvalidInput)
    } else {
        Ok(())
    }
}

/// The analytics window: three `%Y-%m-%d` days, a trend that does not end before it starts,
/// and a row limit of 1 to `MAX_ANALYTICS_ROWS`.
pub open spec fn analytics_window(today: Seq<char>, start: Seq<char>, end: Seq<char>, limit: u64) -> Option<(i32, i32)> {
    match (parsed_day(today), parsed_day(start), parsed_day(end)) {
        (Some(_), Some(s), Some(e)) => if s <= e && 1 <= limit <= MAX_ANALYTICS_ROWS {
            Some((s, e))
        } else {
            None
        },
        _ => None,
    }
}

/// Checks an analytics request and gives the trend's first and last day numbers.
pub fn check_analytics_request(today: &str, trend_start: &str, trend_end: &str, limit: u64) -> (r: Result<
    (i32, i32),
    AiUsageRepositoryError,
>)
    ensures
        match r {
            Ok(w) => analytics_window(today@, trend_start@, trend_end@, limit) == Some(w),
            Err(e) => analytics_window(today@, trend_start@, trend_end@, limit) is None && e
                == AiUsageRepositoryError::InvalidInput,
        },
{
    validate_day(today)?;
    let start = validate_day(trend_start)?;
    let end = validate_day(trend_end)?;
    if start > end || limit == 0 || limit > MAX_ANALYTICS_ROWS {
        return Err(AiUsageRepositoryError::InvalidInput);
    }
    Ok((start, end))
}

// ---------------------------------------------------------------------------------------
// Aggregates.

/// Usage totals over a set of executions. Token totals are known only when every counted
/// execution reported its tokens.
#[derive(Clone, Copy, Debug, PartialEq, Eq, Structural)]
pub struct AiUsageSummary {
    pub total_requests: u64,
    pub active_users: u64,
    pub successful_requests: u64,
    pub failed_requests: u64,
    pub prompt_tokens: Option<u64>,
    pub completion_tokens: Option<u64>,
    pub total_tokens: Option<u64>,
    pub known_token_requests: u64,
}

/// A token sum as reported: unknown unless every execution reported tokens; zero when there
/// were no executions.
pub open spec fn token_total(sum: Option<i64>, all_known: bool, total_requests: u64) -> Result<
    Option<u64>,
    AiUsageRepositoryError,
> {
    if !all_known {
        Ok(None)
    } else if total_requests == 0 {
        Ok(Some(0))
    } else {
        match sum {
            None => Ok(None),
            Some(v) => if v >= 0 {
                Ok(Some(v as u64))
            } else {
                Err(AiUsageRepositoryError::InvalidStoredAggregate)
            },
        }
    }
}

pub fn aggregate_token(sum: Option<i64>, all_known: bool, total_requests: u64) -> (r: Result<
    Option<u64>,
    AiUsageRepositoryError,
>)
    ensures
        r == token_total(sum, all_known, total_requests),
{
    if !all_known {
        return Ok(None);
    }
    if total_requests == 0 {
        return Ok(Some(0));
    }
    match sum {
        None => Ok(None),
        Some(v) => {
            let n = unsigned(v)?;
            Ok(Some(n))
        },
    }
}

/// The summary of stored aggregate columns, or an invalid-aggregate error for a negative
/// count or sum.
pub open spec fn summary_outcome(
    total: i64,
    successful: i64,
    known: i64,
    prompt: Option<i64>,
    completion: Option<i64>,
    tokens: Option<i64>,
    active_users: u64,
) -> Result<AiUsageSummary, AiUsageRepositoryError> {
    if total < 0 || successful < 0 || known < 0 {
        Err(AiUsageRepositoryError::InvalidStoredAggregate)
    } else {
        let all_known = total == 0 || known == total;
        match (
            token_total(prompt, all_known, total as u64),
            token_total(completion, all_known, total as u64),
            token_total(tokens, all_known, total as u64),
        ) {
            (Ok(p), Ok(c), Ok(t)) => Ok(
                AiUsageSummary {
                    total_requests: total as u64,
                    active_users,
                    successful_requests: successful as u64,
                    failed_requests: if total >= successful {
                        (total - successful) as u64
                    } else {
                        0
                    },
                    prompt_tokens: p,
                    completion_tokens: c,
                    total_tokens: t,
                    known_token_requests: known as u64,
                },
            ),
            _ => Err(AiUsageRepositoryError::InvalidStoredAggregate),
        }
    }
}

/// Builds a usage summary from the stored aggregate columns: failures are the executions
/// that did not succeed.
pub fn aggregate_summary(
    total: i64,
    successful: i64,
    known: i64,
    prompt: Option<i64>,
    completion: Option<i64>,
    tokens: Option<i64>,
    active_users: u64,
) -> (r: Result<AiUsageSummary, AiUsageRepositoryError>)
    ensures
        r == summary_outcome(total, successful, known, prompt, completion, tokens, active_users),
{
    let total_requests = unsigned(total)?;
    let successful_requests = unsigned(successful)?;
    let known_requests = unsigned(known)?;
    let all_known = total_requests == 0 || known_requests == total_requests;
    let prompt_tokens = aggregate_token(prompt, all_known, total_requests)?;
    let completion_tokens = aggregate_token(completion, all_known, total_requests)?;
    let total_tokens = aggregate_token(tokens, all_known, total_requests)?;
    Ok(
        AiUsageSummary {
            total_requests,
            active_users,
            successful_requests,
            failed_requests: total_requests.saturating_sub(successful_requests),
            prompt_tokens,
            completion_tokens,
            total_tokens,
            known_token_requests: known_requests,
        },
    )
}

/// A summary is refused exactly when a stored count is negative or a known token sum is;
/// an accepted one keeps the counts, counts as failed every execution that did not
/// succeed, and reports each token sum only when every execution reported its tokens:
/// zero when there were none, the stored sum otherwise, and nothing when some execution
/// did not report tokens.
pub proof fn summary_reports_tokens_only_when_all_known(
    total: i64,
    successful: i64,
    known: i64,
    prompt: Option<i64>,
    completion: Option<i64>,
    tokens: Option<i64>,
    active_users: u64,
)
    ensures
        (total < 0 || successful < 0 || known < 0) ==> summary_outcome(
            total,
            successful,
            known,
            prompt,
            completion,
            tokens,
            active_users,
        ) is Err,
        summary_outcome(total, successful, known, prompt, completion, tokens, active_users) matches Ok(s) ==> {
            &&& total >= 0 && successful >= 0 && known >= 0
            &&& s.total_requests == total && s.successful_requests == successful
            &&& s.known_token_requests == known && s.active_users == active_users
            &&& s.failed_requests == (if total > successful {
                total - successful
            } else {
                0
            })
            &&& (total > 0 && known != total) ==> (s.prompt_tokens is None && s.completion_tokens is None
                && s.total_tokens is None)
            &&& total == 0 ==> (s.prompt_tokens == Some(0u64) && s.completion_tokens == Some(0u64)
                && s.total_tokens == Some(0u64))
            &&& (total > 0 && known == total) ==> {
                &&& (s.prompt_tokens matches Some(v) ==> prompt == Some(v as i64))
                &&& (s.prompt_tokens is None ==> prompt is None)
                &&& (s.completion_tokens matches Some(v) ==> completion == Some(v as i64))
                &&& (s.completion_tokens is None ==> completion is None)
                &&& (s.total_tokens matches Some(v) ==> tokens == Some(v as i64))
                &&& (s.total_tokens is None ==> tokens is None)
            }
        },
        (total >= 0 && successful >= 0 && known >= 0 && (total == 0 || known != total)) ==> summary_outcome(
            total,
            successful,
            known,
            prompt,
            completion,
            tokens,
            active_users,
        ) is Ok,
{
}

/// Usage on one day.
#[derive(Clone, Debug)]
pub struct AiUsageDaily {
    pub day: String,
    pub total_requests: u64,
    pub successful_requests: u64,
    pub failed_requests: u64,
    pub total_tokens: Option<u64>,
}

/// A day's usage as values.
pub open spec fn daily_view(d: AiUsageDaily) -> (Seq<char>, u64, u64, u64, Option<u64>) {
    (d.day@, d.total_requests, d.successful_requests, d.failed_requests, d.total_tokens)
}

/// The last position of `rows` reporting the day `key`.
pub open spec fn last_row_for(rows: Seq<AiUsageDaily>, key: Seq<char>) -> Option<int>
    decreases rows.len(),
{
    if rows.len() == 0 {
        None
    } else if rows.last().day@ == key {
        Some(rows.len() - 1)
    } else {
        last_row_for(rows.drop_last(), key)
    }
}

/// The trend entry of the `k`-th day, whose text is `keys[k]`: the reported usage of that
/// day (the last row reporting it), or zero usage when no row reports it or an earlier day
/// of the trend already took it.
pub open spec fn trend_entry(rows: Seq<AiUsageDaily>, keys: Seq<Seq<char>>, k: int) -> (
    Seq<char>,
    u64,
    u64,
    u64,
    Option<u64>,
) {
    let key = keys[k];
    if exists|j: int| 0 <= j < k && keys[j] == key {
        (key, 0, 0, 0, Some(0))
    } else {
        match last_row_for(rows, key) {
            Some(i) => daily_view(rows[i]),
            None => (key, 0, 0, 0, Some(0)),
        }
    }
}

proof fn lemma_last_row_for(rows: Seq<AiUsageDaily>, key: Seq<char>)
    ensures
        last_row_for(rows, key) matches Some(i) ==> 0 <= i < rows.len() && rows[i].day@ == key,
    decreases rows.len(),
{
    if rows.len() > 0 {
        lemma_last_row_for(rows.drop_last(), key);
    }
}

fn find_last_row(rows: &Vec<AiUsageDaily>, key: &str) -> (r: Option<usize>)
    ensures
        match r {
            Some(i) => last_row_for(rows@, key@) == Some(i as int),
            None => last_row_for(rows@, key@) is None,
        },
{
    let mut i: usize = rows.len();
    assert(rows@.take(i as int) =~= rows@);
    while i > 0
        invariant
            i <= rows@.len(),
            last_row_for(rows@, key@) == last_row_for(rows@.take(i as int), key@),
        decreases i,
    {
        assert(rows@.take(i as int).drop_last() =~= rows@.take(i - 1));
        if crate::text::str_eq(rows[i - 1].day.as_str(), key) {
            return Some(i - 1);
        }
        i = i - 1;
    }
    None
}

fn zero_day(key: String) -> (r: AiUsageDaily)
    ensures
        daily_view(r) == (key@, 0u64, 0u64, 0u64, Some(0u64)),
{
    AiUsageDaily { day: key, total_requests: 0, successful_requests: 0, failed_requests: 0, total_tokens: Some(0) }
}

/// Lays out the trend from `start` to `end` (day numbers), one entry per day, from the
/// rows reported per day. A day number without a date text is invalid input.
pub fn fill_daily(start: i32, end: i32, rows: Vec<AiUsageDaily>) -> (r: Result<
    Vec<AiUsageDaily>,
    AiUsageRepositoryError,
>)
    ensures
        match r {
            Ok(v) => {
                let n = if start <= end { end - start + 1 } else { 0 };
                &&& v@.len() == n
                &&& forall|k: int| 0 <= k < n ==> #[trigger] day_text_of((start + k) as i32) is Some
                &&& forall|k: int|
                    0 <= k < n ==> daily_view(#[trigger] v@[k]) == trend_entry(
                        rows@,
                        Seq::new(n as nat, |j: int| day_text_of((start + j) as i32).unwrap()),
                        k,
                    )
            },
            Err(e) => e == AiUsageRepositoryError::InvalidInput && exists|k: int|
                0 <= k && start + k <= end && #[trigger] day_text_of((start + k) as i32) is None,
        },
{
    let mut out: Vec<AiUsageDaily> = Vec::new();
    if start > end {
        return Ok(out);
    }
    let n: i64 = (end as i64) - (start as i64) + 1;
    let ghost keys_all = Seq::new(n as nat, |j: int| day_text_of((start + j) as i32).unwrap());
    let mut keys: Vec<String> = Vec::new();
    let mut k: i64 = 0;
    while k < n
        invariant
            n == end - start + 1,
            0 <= k <= n,
            keys_all == Seq::new(n as nat, |j: int| day_text_of((start + j) as i32).unwrap()),
            out@.len() == k,
            keys@.len() == k,
            forall|j: int| 0 <= j < k ==> #[trigger] day_text_of((start + j) as i32) is Some,
            forall|j: int| 0 <= j < k ==> keys@[j]@ == keys_all[j],
            forall|j: int| 0 <= j < k ==> daily_view(#[trigger] out@[j]) == trend_entry(rows@, keys_all, j),
        decreases n - k,
    {
        let day = (start as i64 + k) as i32;
        let key = match day_text(day) {
            Some(t) => t,
            None => {
                assert(day_text_of((start + k) as i32) is None);
                return Err(AiUsageRepositoryError::InvalidInput);
            },
        };
        assert(key@ == keys_all[k as int]);
        let mut taken = false;
        let mut j: usize = 0;
        while j < keys.len()
            invariant
                j <= keys@.len() == k,
                forall|t: int| 0 <= t < k ==> keys@[t]@ == keys_all[t],
                taken <==> exists|t: int| 0 <= t < j && keys_all[t] == key@,
            decreases keys.len() - j,
        {
            assert(keys@[j as int]@ == keys_all[j as int]);
            if crate::text::str_eq(keys[j].as_str(), key.as_str()) {
                taken = true;
            }
            j = j + 1;
        }
        proof {
            lemma_last_row_for(rows@, key@);
        }
        let entry = if taken {
            zero_day(key.clone())
        } else {
            match find_last_row(&rows, key.as_str()) {
                Some(i) => AiUsageDaily {
                    day: key.clone(),
                    total_requests: rows[i].total_requests,
                    successful_requests: rows[i].successful_requests,
                    failed_requests: rows[i].failed_requests,
                    total_tokens: rows[i].total_tokens,
                },
                None => zero_day(key.clone()),
            }
        };
        assert(daily_view(entry) == trend_entry(rows@, keys_all, k as int));
        out.push(entry);
        keys.push(key);
        k = k + 1;
    }
    Ok(out)
}

// ---------------------------------------------------------------------------------------
// Daily quota.

/// The most attempts one quota consumption makes.
pub const MAX_QUOTA_ATTEMPTS: u32 = 3;

/// The `%Y-%m-%d` key of a day number; a number without a date is invalid input.
pub fn day_key(day: i32) -> (r: Result<String, AiUsageRepositoryError>)
    ensures
        match r {
            Ok(t) => day_text_of(day) == Some(t@),
            Err(e) => day_text_of(day) is None && e == AiUsageRepositoryError::InvalidInput,
        },
{
    match day_text(day) {
        Some(t) => Ok(t),
        None => Err(AiUsageRepositoryError::InvalidInput),
    }
}

/// A database error code reports a serialization failure (SQLSTATE `40001`).
pub fn is_serialization_failure(code: Option<&str>) -> (r: bool)
    ensures
        r == (code matches Some(c) && c@ == "40001"@),
{
    match code {
        Some(c) => crate::text::str_eq(c, "40001"),
        None => false,
    }
}

/// A failed attempt (counted from 0) is tried again only on MySQL, only after a
/// serialization failure, and only while attempts remain.
pub open spec fn quota_retry(is_mysql: bool, attempt: u32, serialization_failure: bool) -> bool {
    is_mysql && attempt + 1 < MAX_QUOTA_ATTEMPTS && serialization_failure
}

pub fn retry_quota_attempt(is_mysql: bool, attempt: u32, serialization_failure: bool) -> (r: bool)
    ensures
        r == quota_retry(is_mysql, attempt, serialization_failure),
{
    is_mysql && attempt < MAX_QUOTA_ATTEMPTS - 1 && serialization_failure
}

/// A request consumes quota when the guarded increment of the day's count updated its row.
pub fn quota_consumed(rows_affected: u64) -> (r: bool)
    ensures
        r == (rows_affected == 1),
{
    rows_affected == 1
}

/// A quota consumption makes at most `MAX_QUOTA_ATTEMPTS` attempts: no attempt after the
/// last is ever retried.
pub proof fn quota_attempts_are_bounded(is_mysql: bool, attempt: u32, serialization_failure: bool)
    ensures
        quota_retry(is_mysql, attempt, serialization_failure) ==> attempt + 1 < MAX_QUOTA_ATTEMPTS,
        attempt + 1 >= MAX_QUOTA_ATTEMPTS ==> !quota_retry(is_mysql, attempt, serialization_failure),
{
}

} // verus!
