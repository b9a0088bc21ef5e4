use serde_json::Value;
use tjxy_db::catalog_visibility::catalog_item_visible;
use tjxy_db::direct_metadata::{library_imports_metadata, DirectMetadataError, DirectMetadataObjectRecord};
use tjxy_db::display_preferences::{check_document, validate_client, validate_document, DisplayPreferencesRepositoryError};

#[test]
fn client_names_are_exact_plain_text() {
    assert_eq!(validate_client("web"), Ok(()));
    assert_eq!(validate_client("Jellyfin Web"), Ok(()));
    let invalid = Err(DisplayPreferencesRepositoryError::InvalidClient);
    assert_eq!(validate_client(""), invalid);
    assert_eq!(validate_client(" web"), invalid);
    assert_eq!(validate_client("web\n"), invalid);
    assert_eq!(validate_client("web\u{a0}"), invalid);
    assert_eq!(validate_client("we\u{1}b"), invalid);
    assert_eq!(validate_client(&"c".repeat(257)), invalid);
    assert_eq!(validate_client(&"c".repeat(256)), Ok(()));
}

#[test]
fn documents_are_bounded_objects() {
    assert_eq!(check_document(true, 2), Ok(()));
    assert_eq!(check_document(true, 65_536), Ok(()));
    assert_eq!(check_document(true, 65_537), Err(DisplayPreferencesRepositoryError::InvalidDocument));
    assert_eq!(check_document(false, 2), Err(DisplayPreferencesRepositoryError::InvalidDocument));
}

#[test]
fn visible_items_are_present_matched_members() {
    assert!(catalog_item_visible(true, "Matched", true, false));
    assert!(catalog_item_visible(true, "Matched", false, true));
    assert!(!catalog_item_visible(true, "Matched", false, false));
    assert!(!catalog_item_visible(false, "Matched", true, true));
    assert!(!catalog_item_visible(true, "Unmatched", true, true));
}

#[test]
fn direct_metadata_objects() {
    let o = DirectMetadataObjectRecord::from_stored(
        1, 2, "filesystem".to_string(), "d".to_string(), "o".to_string(), "movie.nfo".to_string(), 120,
        Some("r1".to_string()), "nfo".to_string(), 5, 9,
    )
    .unwrap();
    assert_eq!((o.storage_object_id(), o.storage_account_id(), o.provider(), o.name()), (1, 2, "filesystem", "movie.nfo"));
    assert_eq!((o.size(), o.remote_revision(), o.resource_kind(), o.priority(), o.input_revision()), (120, Some("r1"), "nfo", 5, 9));
    assert_eq!((o.provider_drive_id(), o.provider_object_id()), ("d", "o"));
    assert_eq!(
        DirectMetadataObjectRecord::from_stored(1, 2, String::new(), String::new(), String::new(), String::new(), -1, None, String::new(), 0, 0)
            .map(|_| ()),
        Err(DirectMetadataError::InvalidSize)
    );
    assert!(library_imports_metadata("automatic_scrape", "off"));
    assert!(library_imports_metadata("manual", "import"));
    assert!(library_imports_metadata("manual", "import_metadata_only"));
    assert!(!library_imports_metadata("manual", "read_only"));
}

#[test]
fn json_documents_are_checked_by_their_serialization() {
    let mut object = serde_json::Map::new();
    object.insert("theme".to_string(), Value::String("dark".to_string()));
    assert_eq!(validate_document(&Value::Object(object)), Ok(()));
    assert_eq!(validate_document(&Value::Array(vec![])), Err(DisplayPreferencesRepositoryError::InvalidDocument));
    assert_eq!(validate_document(&Value::Null), Err(DisplayPreferencesRepositoryError::InvalidDocument));
    let mut large = serde_json::Map::new();
    large.insert("k".to_string(), Value::String("x".repeat(65_536)));
    assert_eq!(validate_document(&Value::Object(large)), Err(DisplayPreferencesRepositoryError::InvalidDocument));
    let mut fits = serde_json::Map::new();
    // {"k":"…"} adds 8 bytes around the text.
    fits.insert("k".to_string(), Value::String("x".repeat(65_528)));
    assert_eq!(validate_document(&Value::Object(fits)), Ok(()));
}
