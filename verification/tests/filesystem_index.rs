use tjxy_db::filesystem_index::{parse_state, FilesystemIndexConfig, FilesystemIndexError, FilesystemIndexState};

fn fresh_config() -> FilesystemIndexConfig {
    FilesystemIndexConfig {
        state: None,
        verified_identity: None,
        pending_identity: None,
        error: None,
        revision: None,
    }
}

#[test]
fn mount_drift_is_gated_until_the_reconciled_revision_is_published() {
    let mut config = fresh_config();
    assert!(!config.prepare_mount("old", false));
    assert_eq!(config.index_state(), Ok(FilesystemIndexState::Ready));
    assert!(config.prepare_mount("new", true));
    assert_eq!(config.index_state(), Ok(FilesystemIndexState::Rebuilding));
    config.publish_ready(2);
    assert_eq!(config.index_state(), Ok(FilesystemIndexState::Ready));
    assert_eq!(config.verified_identity.as_deref(), Some("new"));
    assert_eq!(config.pending_identity, None);
    assert_eq!(config.revision, Some(2));
    assert!(!config.prepare_mount("new", false));
}

#[test]
fn verified_ready_mount_changes_nothing() {
    let mut config = fresh_config();
    assert!(!config.prepare_mount("root", false));
    let before = (config.state.clone(), config.verified_identity.clone(), config.pending_identity.clone());
    assert!(!config.prepare_mount("root", true));
    assert_eq!(before, (config.state.clone(), config.verified_identity.clone(), config.pending_identity.clone()));
}

#[test]
fn namespace_change_on_first_mount_schedules_validation() {
    let mut config = fresh_config();
    assert!(config.prepare_mount("first", true));
    assert_eq!(config.state.as_deref(), Some("Rebuilding"));
    assert_eq!(config.pending_identity.as_deref(), Some("first"));
    assert_eq!(config.verified_identity, None);
}

#[test]
fn failed_validation_marks_only_rebuilding_index() {
    let mut config = fresh_config();
    config.mark_failed("ignored");
    assert_eq!(config.state, None);
    assert!(config.prepare_mount("a", true));
    config.mark_failed("unreadable root");
    assert_eq!(config.index_state(), Ok(FilesystemIndexState::Failed));
    assert_eq!(config.error.as_deref(), Some("unreadable root"));
    config.publish_ready(7);
    assert_eq!(config.index_state(), Ok(FilesystemIndexState::Failed));
    assert_eq!(config.revision, None);
}

#[test]
fn index_state_texts_parse_and_round_trip() {
    assert_eq!(parse_state(None), Ok(FilesystemIndexState::Rebuilding));
    assert_eq!(parse_state(Some("Ready")), Ok(FilesystemIndexState::Ready));
    assert_eq!(parse_state(Some("Failed")), Ok(FilesystemIndexState::Failed));
    assert_eq!(parse_state(Some("ready")), Err(FilesystemIndexError::InvalidState));
    for state in [FilesystemIndexState::Ready, FilesystemIndexState::Rebuilding, FilesystemIndexState::Failed] {
        assert_eq!(parse_state(Some(state.as_str())), Ok(state));
    }
}
