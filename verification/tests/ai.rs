use serde_json::Value;
use tjxy_db::ai::validate_exchange;
use tjxy_db::ai::{
    check_conversation_limit, check_conversation_title, check_exchange, check_settings_delete, plan_settings_write,
    settings_delete_result, valid_text, validate_settings, AiConversationRepositoryError, AiModelInput,
    AiModelRecord, AiReasoningEffort, AiSettingsRecord, AiSettingsRepositoryError, AI_PROVIDER_KEY,
};

fn model(id: u128, upstream: &str, visible: bool, default: bool) -> AiModelInput {
    AiModelInput::new(id, upstream.to_string(), format!("Model {id}"), visible, default, id as i32)
}

fn stored(id: u128, effort: &str, visible: bool, default: bool) -> AiModelRecord {
    AiModelRecord::from_stored(id, format!("up-{id}"), format!("Model {id}"), effort, visible, default, 0).unwrap()
}

fn settings(models: &[AiModelInput], revision: Option<i64>) -> Result<(), AiSettingsRepositoryError> {
    validate_settings(AI_PROVIDER_KEY, "https://ai.example", "Be brief.", models, revision)
}

#[test]
fn reasoning_efforts_round_trip_and_default_to_off() {
    for effort in [
        AiReasoningEffort::Off,
        AiReasoningEffort::Low,
        AiReasoningEffort::Medium,
        AiReasoningEffort::High,
        AiReasoningEffort::Xhigh,
        AiReasoningEffort::Max,
    ] {
        assert_eq!(AiReasoningEffort::parse(effort.as_str()), Some(effort));
    }
    assert_eq!(AiReasoningEffort::default(), AiReasoningEffort::Off);
    assert_eq!(AiReasoningEffort::parse("Off"), None);
    assert_eq!(AiReasoningEffort::parse("extreme"), None);
    let m = model(1, "gpt", true, true);
    assert_eq!(m.reasoning_effort(), AiReasoningEffort::Off);
    let m = m.with_reasoning_effort(AiReasoningEffort::High);
    assert_eq!(m.reasoning_effort(), AiReasoningEffort::High);
    assert_eq!((m.id(), m.upstream_id(), m.is_visible(), m.is_default(), m.sort_order()), (1, "gpt", true, true, 1));
}

#[test]
fn ai_text_allows_line_feed_and_tab_only() {
    assert!(valid_text("a\nb\tc", 10));
    assert!(!valid_text("a\rb", 10));
    assert!(!valid_text("\u{1f}", 10));
    assert!(valid_text("a\u{7f}", 10));
    assert!(!valid_text(" \n ", 10));
    assert!(!valid_text("abc", 2));
}

#[test]
fn settings_are_validated_in_order() {
    let good = [model(1, "a", true, true), model(2, "b", false, false)];
    assert_eq!(settings(&good, None), Ok(()));
    assert_eq!(settings(&good, Some(3)), Ok(()));
    assert_eq!(
        validate_settings("openai", "https://ai.example", "p", &good, None),
        Err(AiSettingsRepositoryError::InvalidSettings)
    );
    assert_eq!(
        validate_settings(AI_PROVIDER_KEY, " ", "p", &good, None),
        Err(AiSettingsRepositoryError::InvalidSettings)
    );
    assert_eq!(
        validate_settings(AI_PROVIDER_KEY, "u", &"p".repeat(16_001), &good, Some(0)),
        Err(AiSettingsRepositoryError::InvalidSettings)
    );
    assert_eq!(settings(&good, Some(0)), Err(AiSettingsRepositoryError::InvalidRevision));
    assert_eq!(settings(&[], Some(0)), Err(AiSettingsRepositoryError::InvalidRevision));
    let invalid = Err(AiSettingsRepositoryError::InvalidModels);
    assert_eq!(settings(&[], None), invalid);
    assert_eq!(settings(&[model(1, "a", true, false)], None), invalid);
    assert_eq!(settings(&[model(1, "a", true, true), model(2, "b", true, true)], None), invalid);
    assert_eq!(settings(&[model(1, "a", false, true)], None), invalid);
    assert_eq!(settings(&[model(1, "a", true, true), model(1, "b", true, false)], None), invalid);
    assert_eq!(settings(&[model(1, "a", true, true), model(2, "a", true, false)], None), invalid);
    let negative_order = AiModelInput::new(1, "a".to_string(), "A".to_string(), true, true, -1);
    assert_eq!(settings(&[negative_order], None), invalid);
    assert_eq!(settings(&[model(1, &"u".repeat(256), true, true)], None), invalid);
    assert_eq!(settings(&[model(1, &"u".repeat(255), true, true)], None), Ok(()));
    let many: Vec<AiModelInput> = (0..65u128).map(|i| model(i, &format!("m{i}"), true, i == 0)).collect();
    assert_eq!(settings(&many, None), invalid);
    assert_eq!(settings(&many[..64], None), Ok(()));
}

#[test]
fn settings_writes_are_fenced_by_revision_and_credential() {
    assert_eq!(plan_settings_write(None, None, 5), Ok(1));
    assert_eq!(plan_settings_write(Some((1, 5)), None, 5), Err(AiSettingsRepositoryError::RevisionConflict));
    assert_eq!(plan_settings_write(None, Some(1), 5), Err(AiSettingsRepositoryError::RevisionConflict));
    assert_eq!(plan_settings_write(Some((2, 5)), Some(1), 5), Err(AiSettingsRepositoryError::RevisionConflict));
    assert_eq!(
        plan_settings_write(Some((1, 5)), Some(1), 6),
        Err(AiSettingsRepositoryError::CredentialIdentityConflict)
    );
    assert_eq!(plan_settings_write(Some((1, 5)), Some(1), 5), Ok(2));
    assert_eq!(
        plan_settings_write(Some((i64::MAX, 5)), Some(i64::MAX), 5),
        Err(AiSettingsRepositoryError::InvalidRevision)
    );
    // Repeating a successful write at the same expected revision conflicts.
    let next = plan_settings_write(Some((4, 5)), Some(4), 5).unwrap();
    assert_eq!(plan_settings_write(Some((next, 5)), Some(4), 5), Err(AiSettingsRepositoryError::RevisionConflict));
    let first = plan_settings_write(None, None, 5).unwrap();
    assert_eq!(plan_settings_write(Some((first, 5)), None, 5), Err(AiSettingsRepositoryError::RevisionConflict));
}

#[test]
fn settings_deletion_outcomes() {
    assert_eq!(check_settings_delete(None), Ok(()));
    assert_eq!(check_settings_delete(Some(1)), Ok(()));
    assert_eq!(check_settings_delete(Some(0)), Err(AiSettingsRepositoryError::InvalidRevision));
    assert_eq!(settings_delete_result(None, 0), Ok(false));
    assert_eq!(settings_delete_result(None, 1), Ok(true));
    assert_eq!(settings_delete_result(Some(2), 1), Ok(true));
    assert_eq!(settings_delete_result(Some(2), 0), Err(AiSettingsRepositoryError::RevisionConflict));
    assert_eq!(settings_delete_result(Some(-2), 1), Err(AiSettingsRepositoryError::InvalidRevision));
}

#[test]
fn stored_catalog_queries() {
    assert_eq!(
        AiModelRecord::from_stored(1, "a".to_string(), "A".to_string(), "turbo", true, true, 0).map(|_| ()),
        Err(AiSettingsRepositoryError::InvalidModels)
    );
    let models = vec![stored(1, "off", false, false), stored(2, "high", true, true), stored(3, "low", true, true)];
    let record = AiSettingsRecord::from_parts(
        AI_PROVIDER_KEY.to_string(),
        true,
        "https://ai.example".to_string(),
        "Be brief.".to_string(),
        77,
        4,
        1000,
        models,
    );
    let visible: Vec<u128> = record.visible_models().iter().map(|m| m.id()).collect();
    assert_eq!(visible, vec![2, 3]);
    let default = record.default_model().unwrap();
    assert_eq!((default.id(), default.reasoning_effort()), (2, AiReasoningEffort::High));
    assert_eq!(record.model(3).map(|m| m.upstream_id()), Some("up-3"));
    assert!(record.model(9).is_none());
    assert_eq!((record.credential_id(), record.revision(), record.models().len()), (77, 4, 3));
    let no_default = AiSettingsRecord::from_parts(
        AI_PROVIDER_KEY.to_string(),
        false,
        "u".to_string(),
        "p".to_string(),
        1,
        1,
        0,
        vec![stored(1, "off", false, true)],
    );
    assert!(no_default.default_model().is_none());
}

#[test]
fn conversations_and_exchanges() {
    assert_eq!(check_conversation_limit(1), Ok(()));
    assert_eq!(check_conversation_limit(100), Ok(()));
    assert_eq!(check_conversation_limit(0), Err(AiConversationRepositoryError::InvalidLimit));
    assert_eq!(check_conversation_limit(101), Err(AiConversationRepositoryError::InvalidLimit));
    assert_eq!(check_conversation_title("Trip plans"), Ok(()));
    assert_eq!(check_conversation_title(&"t".repeat(161)), Err(AiConversationRepositoryError::InvalidTitle));
    assert_eq!(check_exchange("hi", "hello", "{}"), Ok(()));
    assert_eq!(check_exchange("", "hello", "{}"), Err(AiConversationRepositoryError::InvalidMessage));
    assert_eq!(check_exchange("hi", "a\u{0}", "{}"), Err(AiConversationRepositoryError::InvalidMessage));
    let big = format!("\"{}\"", "x".repeat(65_535));
    assert_eq!(check_exchange("hi", "hello", &big), Err(AiConversationRepositoryError::InvalidMetadata));
    let fits = format!("\"{}\"", "x".repeat(65_534));
    assert_eq!(check_exchange("hi", "hello", &fits), Ok(()));
}

#[test]
fn exchanges_store_the_metadata_json_text() {
    let mut metadata = serde_json::Map::new();
    metadata.insert("tool".to_string(), Value::Bool(true));
    assert_eq!(validate_exchange("hi", "hello", &Value::Object(metadata)).as_deref(), Ok("{\"tool\":true}"));
    assert_eq!(validate_exchange("hi", "hello", &Value::Null).as_deref(), Ok("null"));
    assert_eq!(
        validate_exchange(" ", "hello", &Value::Null),
        Err(AiConversationRepositoryError::InvalidMessage)
    );
    let big = Value::String("x".repeat(65_535));
    assert_eq!(validate_exchange("hi", "hello", &big), Err(AiConversationRepositoryError::InvalidMetadata));
    let fits = Value::String("x".repeat(65_534));
    assert_eq!(validate_exchange("hi", "hello", &fits).map(|t| t.len()), Ok(65_536));
}
