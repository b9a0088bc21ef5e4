use chrono::{Datelike, NaiveDate};
use tjxy_db::ai_usage::{
    day_key, is_serialization_failure, quota_consumed, retry_quota_attempt,
    aggregate_summary, aggregate_token, check_analytics_request, check_quota_limit, fill_daily, optional_i64,
    stored_counts, unsigned, validate_day, validate_input, AiExecutionInput, AiExecutionOutcome, AiUsageDaily,
    AiUsageRepositoryError, AiUsageSummary,
};

fn day_number(y: i32, m: u32, d: u32) -> i32 {
    NaiveDate::from_ymd_opt(y, m, d).unwrap().num_days_from_ce()
}

fn execution(day: &str) -> AiExecutionInput {
    AiExecutionInput::new(
        1,
        2,
        "Model".to_string(),
        "up-model".to_string(),
        day.to_string(),
        100,
        150,
        50,
        AiExecutionOutcome::Success,
    )
}

fn daily(day: &str, total: u64, tokens: Option<u64>) -> AiUsageDaily {
    AiUsageDaily { day: day.to_string(), total_requests: total, successful_requests: total, failed_requests: 0, total_tokens: tokens }
}

#[test]
fn outcomes_round_trip_through_their_texts() {
    for outcome in [
        AiExecutionOutcome::Success,
        AiExecutionOutcome::UpstreamRejected,
        AiExecutionOutcome::UpstreamInvalid,
        AiExecutionOutcome::UpstreamTimeout,
        AiExecutionOutcome::ToolFailed,
        AiExecutionOutcome::PersistenceFailed,
        AiExecutionOutcome::InternalError,
    ] {
        assert_eq!(AiExecutionOutcome::parse(outcome.as_str()), Ok(outcome));
    }
    assert_eq!(AiExecutionOutcome::ToolFailed.as_str(), "tool_failed");
    assert_eq!(AiExecutionOutcome::parse("failed"), Err(AiUsageRepositoryError::InvalidStoredOutcome));
}

#[test]
fn days_are_read_with_chrono() {
    assert_eq!(validate_day("2026-01-02"), Ok(day_number(2026, 1, 2)));
    assert_eq!(validate_day("0001-01-01"), Ok(1));
    assert_eq!(validate_day("2026-02-30"), Err(AiUsageRepositoryError::InvalidInput));
    assert_eq!(validate_day("02/01/2026"), Err(AiUsageRepositoryError::InvalidInput));
    assert_eq!(validate_day(""), Err(AiUsageRepositoryError::InvalidInput));
}

#[test]
fn recorded_executions_are_consistent() {
    let input = execution("2026-03-04").with_usage(10, 5);
    assert_eq!(input.total_tokens(), Some(15));
    assert_eq!(validate_input(&input), Ok(()));
    assert_eq!(validate_input(&execution("2026-03-04")), Ok(()));
    assert_eq!(validate_input(&execution("2026-03-04").with_unknown_usage()), Ok(()));
    assert_eq!(validate_input(&execution("yesterday")), Err(AiUsageRepositoryError::InvalidInput));
    let no_model = AiExecutionInput::new(1, 0, "M".to_string(), "u".to_string(), "2026-03-04".to_string(), 1, 1, 0, AiExecutionOutcome::Success);
    assert_eq!(validate_input(&no_model), Err(AiUsageRepositoryError::InvalidInput));
    let backwards = AiExecutionInput::new(1, 2, "M".to_string(), "u".to_string(), "2026-03-04".to_string(), 5, 4, 0, AiExecutionOutcome::Success);
    assert_eq!(validate_input(&backwards), Err(AiUsageRepositoryError::InvalidInput));
    let blank_name = AiExecutionInput::new(1, 2, " ".to_string(), "u".to_string(), "2026-03-04".to_string(), 5, 5, 0, AiExecutionOutcome::Success);
    assert_eq!(validate_input(&blank_name), Err(AiUsageRepositoryError::InvalidInput));
    let overflow = execution("2026-03-04").with_usage(u64::MAX, 1);
    assert_eq!(overflow.total_tokens(), None);
    assert_eq!(validate_input(&overflow), Ok(()));
}

#[test]
fn counts_are_stored_as_signed_integers() {
    assert_eq!(stored_counts(&execution("2026-03-04").with_usage(3, 4)), Ok((50, Some(3), Some(4), Some(7))));
    assert_eq!(stored_counts(&execution("2026-03-04")), Ok((50, None, None, None)));
    assert_eq!(
        stored_counts(&execution("2026-03-04").with_usage(u64::MAX, 0)),
        Err(AiUsageRepositoryError::InvalidInput)
    );
    assert_eq!(optional_i64(Some(i64::MAX as u64)), Ok(Some(i64::MAX)));
    assert_eq!(optional_i64(Some(i64::MAX as u64 + 1)), Err(AiUsageRepositoryError::InvalidInput));
    assert_eq!(unsigned(3), Ok(3));
    assert_eq!(unsigned(-3), Err(AiUsageRepositoryError::InvalidStoredAggregate));
    assert_eq!(check_quota_limit(1), Ok(()));
    assert_eq!(check_quota_limit(0), Err(AiUsageRepositoryError::InvalidInput));
}

#[test]
fn analytics_requests() {
    let start = day_number(2026, 1, 1);
    let end = day_number(2026, 1, 7);
    assert_eq!(check_analytics_request("2026-01-07", "2026-01-01", "2026-01-07", 10), Ok((start, end)));
    assert_eq!(check_analytics_request("2026-01-07", "2026-01-07", "2026-01-07", 100), Ok((end, end)));
    let invalid = Err(AiUsageRepositoryError::InvalidInput);
    assert_eq!(check_analytics_request("2026-01-07", "2026-01-08", "2026-01-07", 10), invalid);
    assert_eq!(check_analytics_request("2026-01-07", "2026-01-01", "2026-01-07", 0), invalid);
    assert_eq!(check_analytics_request("2026-01-07", "2026-01-01", "2026-01-07", 101), invalid);
    assert_eq!(check_analytics_request("today", "2026-01-01", "2026-01-07", 10), invalid);
}

#[test]
fn token_totals_are_known_only_when_every_execution_reported() {
    assert_eq!(aggregate_token(Some(40), false, 3), Ok(None));
    assert_eq!(aggregate_token(None, true, 0), Ok(Some(0)));
    assert_eq!(aggregate_token(Some(40), true, 3), Ok(Some(40)));
    assert_eq!(aggregate_token(None, true, 3), Ok(None));
    assert_eq!(aggregate_token(Some(-1), true, 3), Err(AiUsageRepositoryError::InvalidStoredAggregate));
    assert_eq!(
        aggregate_summary(5, 3, 5, Some(10), Some(20), Some(30), 2),
        Ok(AiUsageSummary {
            total_requests: 5,
            active_users: 2,
            successful_requests: 3,
            failed_requests: 2,
            prompt_tokens: Some(10),
            completion_tokens: Some(20),
            total_tokens: Some(30),
            known_token_requests: 5,
        })
    );
    let partial = aggregate_summary(5, 5, 4, Some(10), Some(20), Some(30), 1).unwrap();
    assert_eq!((partial.prompt_tokens, partial.total_tokens, partial.failed_requests), (None, None, 0));
    let empty = aggregate_summary(0, 0, 0, None, None, None, 0).unwrap();
    assert_eq!((empty.prompt_tokens, empty.completion_tokens, empty.total_tokens), (Some(0), Some(0), Some(0)));
    assert_eq!(aggregate_summary(-1, 0, 0, None, None, None, 0), Err(AiUsageRepositoryError::InvalidStoredAggregate));
    assert_eq!(aggregate_summary(2, 3, 2, None, None, None, 0).unwrap().failed_requests, 0);
}

#[test]
fn daily_trend_has_one_entry_per_day() {
    let start = day_number(2026, 2, 27);
    let end = day_number(2026, 3, 2);
    let rows = vec![daily("2026-03-01", 4, Some(40)), daily("2026-02-27", 1, None), daily("2026-03-01", 6, Some(60))];
    let trend = fill_daily(start, end, rows).unwrap();
    let days: Vec<&str> = trend.iter().map(|d| d.day.as_str()).collect();
    assert_eq!(days, vec!["2026-02-27", "2026-02-28", "2026-03-01", "2026-03-02"]);
    assert_eq!((trend[0].total_requests, trend[0].total_tokens), (1, None));
    assert_eq!((trend[1].total_requests, trend[1].total_tokens), (0, Some(0)));
    assert_eq!((trend[2].total_requests, trend[2].total_tokens), (6, Some(60)));
    assert_eq!(trend[3].total_requests, 0);
    assert!(fill_daily(end, start, vec![]).unwrap().is_empty());
    assert_eq!(fill_daily(start, start, vec![]).unwrap().len(), 1);
    assert_eq!(fill_daily(i32::MAX - 1, i32::MAX, vec![]).map(|_| ()), Err(AiUsageRepositoryError::InvalidInput));
}

#[test]
fn daily_quota_decisions() {
    assert_eq!(day_key(day_number(2026, 3, 4)).as_deref(), Ok("2026-03-04"));
    assert_eq!(day_key(1).as_deref(), Ok("0001-01-01"));
    assert_eq!(day_key(i32::MAX), Err(AiUsageRepositoryError::InvalidInput));
    assert!(is_serialization_failure(Some("40001")));
    assert!(!is_serialization_failure(Some("40P01")));
    assert!(!is_serialization_failure(None));
    assert!(retry_quota_attempt(true, 0, true));
    assert!(retry_quota_attempt(true, 1, true));
    assert!(!retry_quota_attempt(true, 2, true));
    assert!(!retry_quota_attempt(false, 0, true));
    assert!(!retry_quota_attempt(true, 0, false));
    assert!(quota_consumed(1));
    assert!(!quota_consumed(0));
}
